//! Pluggable backends for screen observation.

pub mod mock;
pub mod native;
pub mod screenpipe;

use vstd::prelude::*;

verus! {

/// What a call of an observer's `start` did.
#[derive(Debug, Clone, Copy, PartialEq, Eq, Structural)]
pub enum StartOutcome {
    /// The observer was running already; nothing changed.
    AlreadyRunning,
    /// The observer has begun to run: its work is to begin.
    Started,
}

} // verus!
