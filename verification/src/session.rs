//! The per-client streaming session: a small state machine created once per
//! connection, owning nothing but its own state.
//!
//! A session starts by reading the cell once — substituting the `no data`
//! sentinel when nothing has been written yet — then alternates between
//! emitting the current reading as one JSON event and waiting. The wait ends
//! either with a tick, which re-reads the cell, or with cancellation, which
//! closes the session for good. A failed downstream write also closes it.
//! Sessions never write the cell and never touch one another.

use vstd::prelude::*;

use crate::cell::CellView;
use crate::cell::LatestValueCell;
use crate::codec::payload_of;
use crate::codec::render_event;
use crate::reading::Reading;
use crate::reading::ReadingView;

verus! {

/// Where a session stands in its lifecycle. `Starting` exists only inside
/// `Session::start`, which leaves the new session already in `Emitting`.
#[derive(Clone, Copy, PartialEq, Eq, Structural, Debug)]
pub enum Phase {
    Starting,
    Emitting,
    Waiting,
    Closed,
}

/// Mathematical model of a [`Session`]: its phase, the reading it will emit
/// next, and every payload it has emitted so far, in order.
pub struct SessionView {
    pub phase: Phase,
    pub current: ReadingView,
    pub emitted: Seq<Seq<char>>,
}

/// The label of the sentinel reading served before any write has occurred.
pub open spec fn sentinel_label() -> Seq<char> {
    "no data"@
}

/// The sentinel reading itself.
pub open spec fn sentinel_view() -> ReadingView {
    ReadingView { value: 0, label: sentinel_label() }
}

/// What a new session looks like: one read of the cell, the sentinel when
/// the cell is empty, and an empty emission log, ready to emit.
pub open spec fn start_spec(c: CellView) -> SessionView {
    SessionView {
        phase: Phase::Emitting,
        current: match c.current {
            Option::Some(r) => r,
            Option::None => sentinel_view(),
        },
        emitted: Seq::empty(),
    }
}

/// The payload the session emits next.
pub open spec fn emit_payload(s: SessionView) -> Seq<char> {
    payload_of(s.current.label)
}

/// What emitting does: log the payload and move to `Waiting`.
pub open spec fn emit_spec(s: SessionView) -> SessionView {
    SessionView { phase: Phase::Waiting, current: s.current, emitted: s.emitted.push(emit_payload(s)) }
}

/// What a tick does: re-read the cell and move back to `Emitting`. An empty
/// cell leaves the current reading as it was — before any write that is the
/// sentinel, and the cell never reverts to empty afterwards.
pub open spec fn tick_spec(s: SessionView, c: CellView) -> SessionView {
    SessionView {
        phase: Phase::Emitting,
        current: match c.current {
            Option::Some(r) => r,
            Option::None => s.current,
        },
        emitted: s.emitted,
    }
}

/// What cancellation does: close, touching nothing else.
pub open spec fn cancel_spec(s: SessionView) -> SessionView {
    SessionView { phase: Phase::Closed, current: s.current, emitted: s.emitted }
}

/// One client's streaming session.
pub struct Session {
    phase: Phase,
    current: Reading,
    emitted: Ghost<Seq<Seq<char>>>,
}

impl View for Session {
    type V = SessionView;

    closed spec fn view(&self) -> SessionView {
        SessionView { phase: self.phase, current: self.current@, emitted: self.emitted@ }
    }
}

/// The sentinel reading served before any write has occurred.
pub fn sentinel_reading() -> (r: Reading)
    ensures
        r@ == sentinel_view(),
{
    Reading { value: 0, label: String::from_str("no data") }
}

impl Session {
    /// Creates the session for one new connection: reads the cell once,
    /// substitutes the sentinel when nothing has been written yet, and
    /// stands ready to emit. This is the whole session factory: each call
    /// returns a fresh session sharing nothing but the cell.
    pub fn start(cell: &LatestValueCell) -> (s: Session)
        ensures
            s@ == start_spec(cell@),
    {
        let current = match cell.read() {
            Option::Some(r) => r,
            Option::None => sentinel_reading(),
        };
        Session { phase: Phase::Emitting, current, emitted: Ghost(Seq::empty()) }
    }

    /// The session's phase, for callers driving the loop.
    pub fn phase(&self) -> (p: Phase)
        ensures
            p == self@.phase,
    {
        self.phase
    }

    /// The value the session will emit next.
    pub fn current_value(&self) -> (v: i64)
        ensures
            v == self@.current.value,
    {
        self.current.value
    }

    /// Emits one event: renders the current reading — sentinel or real — as
    /// `{"level":"<label>"}`, logs it, and moves to `Waiting`.
    pub fn emit(&mut self) -> (ev: String)
        requires
            old(self)@.phase is Emitting,
        ensures
            ev@ == emit_payload(old(self)@),
            final(self)@ == emit_spec(old(self)@),
    {
        let ev = render_event(self.current.label.as_str());
        proof {
            self.emitted@ = self.emitted@.push(ev@);
        }
        self.phase = Phase::Waiting;
        ev
    }

    /// The update interval has elapsed: re-reads the cell and moves back to
    /// `Emitting` with the — possibly unchanged — value. The session reads;
    /// it never writes the cell.
    pub fn tick(&mut self, cell: &LatestValueCell)
        requires
            old(self)@.phase is Waiting,
        ensures
            final(self)@ == tick_spec(old(self)@, cell@),
    {
        match cell.read() {
            Option::Some(r) => {
                self.current = r;
            },
            Option::None => {},
        }
        self.phase = Phase::Emitting;
    }

    /// The connection was cancelled or closed while waiting: the session
    /// becomes `Closed` and will never read the cell again. No other
    /// session and not the cell is involved.
    pub fn cancel(&mut self)
        requires
            old(self)@.phase is Waiting,
        ensures
            final(self)@ == cancel_spec(old(self)@),
    {
        self.phase = Phase::Closed;
    }

    /// A downstream write failed — the client is gone: the session moves
    /// directly to `Closed`, whatever it was doing.
    pub fn on_send_failure(&mut self)
        requires
            old(self)@.phase is Emitting || old(self)@.phase is Waiting,
        ensures
            final(self)@ == cancel_spec(old(self)@),
    {
        self.phase = Phase::Closed;
    }
}

} // verus!
