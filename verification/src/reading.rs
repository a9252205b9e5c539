//! The value object that flows from the ingress side to every session: one
//! derived pitch measurement together with its rendered display label.
//!
//! The pitch is kept in fixed point, as thousandths of a unit, so that the
//! derivation and the label rendering are exact; the conversion from the
//! transport's floating-point field happens at the process edge, outside
//! this crate.

use vstd::prelude::*;

verus! {

/// Mathematical model of a [`Reading`]: the fixed-point value and the label
/// as a sequence of characters.
pub struct ReadingView {
    pub value: int,
    pub label: Seq<char>,
}

/// One derived measurement: `value` is the pitch in thousandths of a unit,
/// `label` the pre-rendered human string shown to clients.
/// Immutable once constructed; consumed by copy.
pub struct Reading {
    pub value: i64,
    pub label: String,
}

impl View for Reading {
    type V = ReadingView;

    open spec fn view(&self) -> ReadingView {
        ReadingView { value: self.value as int, label: self.label@ }
    }
}

impl Clone for Reading {
    fn clone(&self) -> (r: Self)
        ensures
            r@ == self@,
    {
        Reading { value: self.value, label: self.label.clone() }
    }
}

impl Reading {
    /// Builds a reading from an already-derived value and label.
    pub fn new(value: i64, label: String) -> (r: Reading)
        ensures
            r@ == (ReadingView { value: value as int, label: label@ }),
    {
        Reading { value, label }
    }
}

} // verus!
