//! Replay timeline engine: merges two independently timestamped event
//! streams of a recorded real-time-strategy match into one deterministic
//! order and projects it onto a live model of the match (unit registry and
//! per-player control groups), emitting one semantic scene delta per change
//! for an external rendering sink.

use vstd::prelude::*;

pub mod camera;
pub mod control;
pub mod emit;
pub mod events;
pub mod filters;
pub mod laws;
pub mod merge;
pub mod registry;
pub mod run;
pub mod tag;
pub mod unit_colors;

verus! {

/// Relies on str's `PartialEq::eq`: returns true exactly when the two
/// strings hold the same sequence of characters.
#[verifier::external_body]
pub(crate) fn str_eq(a: &str, b: &str) -> (r: bool)
    ensures
        r == (a@ == b@),
{
    a == b
}

} // verus!
