//! Input vocabulary of the engine: the phases of a touch and the keys
//! the desktop runner reports.

use vstd::prelude::*;

verus! {

/// The phase of a touch: it started, moved, or ended.
#[derive(Clone, Copy, PartialEq, Eq, Structural, Debug)]
pub enum TouchPhase {
    Started,
    Moved,
    Ended,
}

/// The keys the engine recognizes.
#[derive(Clone, Copy, PartialEq, Eq, Structural, Debug)]
pub enum Key {
    W,
    A,
    S,
    D,
    Space,
    Escape,
    Unknown,
}

} // verus!
