//! The whole service, modelled: one cell and any number of sessions, with
//! the transitions the components perform, and proofs of the guarantees
//! that hold across them — a read only ever yields a prior write, a write
//! reaches every session with its next tick, a fresh session under an empty
//! cell emits the sentinel first, and closing one session leaves every
//! other session and the cell untouched.
//!
//! The transitions here are the very spec functions that the executable
//! methods of [`crate::cell`] and [`crate::session`] are proved to follow,
//! so these lemmas speak about the code, not about a parallel model.

use vstd::prelude::*;

use crate::cell::CellView;
use crate::cell::read_spec;
use crate::cell::write_spec;
use crate::codec::payload_of;
use crate::reading::ReadingView;
use crate::session::SessionView;
use crate::session::cancel_spec;
use crate::session::emit_spec;
use crate::session::sentinel_label;
use crate::session::sentinel_view;
use crate::session::start_spec;
use crate::session::tick_spec;

verus! {

/// The service at one instant: the shared cell and every live session.
pub struct SystemView {
    pub cell: CellView,
    pub sessions: Seq<SessionView>,
}

impl SystemView {
    /// Every session in the range of the sequence.
    pub open spec fn has_session(self, i: int) -> bool {
        0 <= i < self.sessions.len()
    }
}

/// The writer stores a reading: only the cell changes.
pub open spec fn sys_write(sys: SystemView, r: ReadingView) -> SystemView {
    SystemView { cell: write_spec(sys.cell, r), sessions: sys.sessions }
}

/// A new session connects: one read of the cell, nothing else moves.
pub open spec fn sys_connect(sys: SystemView) -> SystemView {
    SystemView { cell: sys.cell, sessions: sys.sessions.push(start_spec(sys.cell)) }
}

/// Session `i`'s update interval elapses: it re-reads the cell.
pub open spec fn sys_tick(sys: SystemView, i: int) -> SystemView {
    SystemView {
        cell: sys.cell,
        sessions: sys.sessions.update(i, tick_spec(sys.sessions[i], sys.cell)),
    }
}

/// Session `i` emits its current reading.
pub open spec fn sys_emit(sys: SystemView, i: int) -> SystemView {
    SystemView { cell: sys.cell, sessions: sys.sessions.update(i, emit_spec(sys.sessions[i])) }
}

/// Session `i`'s connection goes away: that session closes.
pub open spec fn sys_cancel(sys: SystemView, i: int) -> SystemView {
    SystemView { cell: sys.cell, sessions: sys.sessions.update(i, cancel_spec(sys.sessions[i])) }
}

/// Staleness bound: once a write has landed, any waiting session emits that
/// very reading's payload at its next tick — the value a client sees lags
/// a write by at most one update interval.
pub proof fn lemma_staleness_bound(sys: SystemView, r: ReadingView, i: int)
    requires
        sys.has_session(i),
        sys.sessions[i].phase is Waiting,
    ensures
        ({
            let after = sys_emit(sys_tick(sys_write(sys, r), i), i);
            &&& after.sessions[i].emitted.len() == sys.sessions[i].emitted.len() + 1
            &&& after.sessions[i].emitted.last() == payload_of(r.label)
        }),
{
}

/// Sentinel correctness: while no write has occurred, a newly connected
/// session's first emission is the sentinel payload.
pub proof fn lemma_sentinel_first(sys: SystemView)
    requires
        sys.cell.wf(),
        sys.cell.writes.len() == 0,
    ensures
        ({
            let connected = sys_connect(sys);
            let i = connected.sessions.len() - 1;
            let after = sys_emit(connected, i);
            &&& after.sessions[i].emitted =~= seq![payload_of(sentinel_label())]
        }),
{
    assert(read_spec(sys.cell) is None);
}

/// Isolation: closing one session changes that session alone — every other
/// session, and the cell, are exactly as they were, and the closed session
/// keeps its emission log.
pub proof fn lemma_isolation(sys: SystemView, i: int, j: int)
    requires
        sys.has_session(i),
        sys.has_session(j),
        j != i,
    ensures
        sys_cancel(sys, i).cell == sys.cell,
        sys_cancel(sys, i).sessions[j] == sys.sessions[j],
        sys_cancel(sys, i).sessions[i].phase is Closed,
        sys_cancel(sys, i).sessions[i].emitted == sys.sessions[i].emitted,
{
}

/// What it means for a session to serve honest data: the reading it will
/// emit next is the sentinel or the argument of some prior `write` — never
/// an invented value and never a mixture of two writes.
pub open spec fn serves_prior_write(s: SessionView, c: CellView) -> bool {
    s.current == sentinel_view() || c.writes.contains(s.current)
}

/// A fresh session serves honest data from its first event on.
pub proof fn lemma_start_serves_prior_write(c: CellView)
    requires
        c.wf(),
    ensures
        serves_prior_write(start_spec(c), c),
{
    crate::cell::lemma_read_is_prior_write(c);
}

/// A tick keeps a session's data honest.
pub proof fn lemma_tick_serves_prior_write(s: SessionView, c: CellView)
    requires
        c.wf(),
        serves_prior_write(s, c),
    ensures
        serves_prior_write(tick_spec(s, c), c),
{
    crate::cell::lemma_read_is_prior_write(c);
}

/// A write keeps every session's data honest: the history only grows.
pub proof fn lemma_write_serves_prior_write(s: SessionView, c: CellView, r: ReadingView)
    requires
        serves_prior_write(s, c),
    ensures
        serves_prior_write(s, write_spec(c, r)),
{
    if c.writes.contains(s.current) {
        let i = choose|i: int| 0 <= i < c.writes.len() && c.writes[i] == s.current;
        assert(write_spec(c, r).writes[i] == s.current);
    }
}

/// Decoupling of the writer: a write moves no session — in particular it
/// never blocks on, or alters, what any session has already emitted.
pub proof fn lemma_write_leaves_sessions(sys: SystemView, r: ReadingView, j: int)
    requires
        sys.has_session(j),
    ensures
        sys_write(sys, r).sessions[j] == sys.sessions[j],
{
}

} // verus!
