//! The single-slot store shared by the one writer and every session.
//!
//! The cell keeps at most one [`Reading`] — the most recent write wins, there
//! is no queue — and, in ghost state, the whole sequence of writes, so that
//! the contracts can say that a read never yields anything but a prior write.
//! Readers always get an independent snapshot, never a live reference.

use vstd::prelude::*;

use crate::reading::Reading;
use crate::reading::ReadingView;

verus! {

/// Mathematical model of a [`LatestValueCell`]: the current occupant, if any,
/// and the full history of writes in order.
pub struct CellView {
    pub current: Option<ReadingView>,
    pub writes: Seq<ReadingView>,
}

impl CellView {
    /// The slot holds exactly the last write, or nothing when no write has
    /// happened yet. Established by `new`, preserved by `write`.
    pub open spec fn wf(self) -> bool {
        match self.current {
            Option::None => self.writes.len() == 0,
            Option::Some(r) => self.writes.len() > 0 && r == self.writes.last(),
        }
    }
}

/// What one write does to the model: overwrite the slot, extend the history.
pub open spec fn write_spec(c: CellView, r: ReadingView) -> CellView {
    CellView { current: Option::Some(r), writes: c.writes.push(r) }
}

/// What a read observes: the current occupant, untouched.
pub open spec fn read_spec(c: CellView) -> Option<ReadingView> {
    c.current
}

/// Single-slot holder of the most recent reading. Absent until the first
/// write. One writer, any number of readers; a reader gets a copy.
pub struct LatestValueCell {
    current: Option<Reading>,
    writes: Ghost<Seq<ReadingView>>,
}

impl View for LatestValueCell {
    type V = CellView;

    closed spec fn view(&self) -> CellView {
        CellView {
            current: match self.current {
                Option::None => Option::None,
                Option::Some(r) => Option::Some(r@),
            },
            writes: self.writes@,
        }
    }
}

impl LatestValueCell {
    /// An empty cell: no reading yet, no write in the history.
    pub fn new() -> (c: LatestValueCell)
        ensures
            c@.current is None,
            c@.writes.len() == 0,
            c@.wf(),
    {
        LatestValueCell { current: Option::None, writes: Ghost(Seq::empty()) }
    }

    /// Overwrites the slot with `r`. The previous occupant, if any, is gone;
    /// the history grows by exactly this write.
    pub fn write(&mut self, r: Reading)
        ensures
            final(self)@ == write_spec(old(self)@, r@),
            final(self)@.wf(),
    {
        let ghost prior = self@;
        self.current = Option::Some(r);
        proof {
            self.writes@ = prior.writes.push(self.current->Some_0@);
        }
    }

    /// Returns a snapshot of the current occupant: `None` before the first
    /// write, afterwards a copy of the most recent write. Whatever comes out
    /// was the argument of some prior `write`, never a mix of two.
    pub fn read(&self) -> (r: Option<Reading>)
        ensures
            match r {
                Option::None => read_spec(self@) is None,
                Option::Some(v) => read_spec(self@) == Option::Some(v@),
            },
            self@.wf() && r is Some ==> self@.writes.contains(r->Some_0@),
    {
        match &self.current {
            Option::None => Option::None,
            Option::Some(v) => {
                proof {
                    if self@.wf() {
                        assert(self@.writes.last() == v@);
                        assert(self@.writes.contains(v@));
                    }
                }
                Option::Some(v.clone())
            },
        }
    }
}

/// A well-formed cell never hands out a value that was not written: a read
/// yields `None` or the argument of some prior `write`.
pub proof fn lemma_read_is_prior_write(c: CellView)
    requires
        c.wf(),
    ensures
        match read_spec(c) {
            Option::None => c.writes.len() == 0,
            Option::Some(v) => c.writes.contains(v),
        },
{
    match c.current {
        Option::None => {},
        Option::Some(v) => {
            assert(c.writes.last() == v);
            assert(c.writes.contains(v));
        },
    }
}

} // verus!
