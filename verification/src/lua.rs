//! Model of the host's script interpreter state handle.
//!
//! The interpreter itself lives in the host process; the bridge only carries
//! its handle through to user handlers, so the handle is modeled as a plain
//! integer. The stack-manipulation calls that operate on a live interpreter
//! are part of the unverified host boundary.

use vstd::prelude::*;

verus! {

/// A handle to a host-owned interpreter state.
#[derive(Clone, Copy, Debug, PartialEq, Eq, Structural)]
pub struct State {
    raw: u64,
}

impl State {
    /// The raw handle value.
    pub closed spec fn spec_raw(&self) -> u64 {
        self.raw
    }

    /// Wraps a raw interpreter handle.
    pub fn new(raw: u64) -> (s: State)
        ensures
            s.spec_raw() == raw,
    {
        State { raw }
    }

    /// Returns the raw handle value.
    pub fn raw(&self) -> (r: u64)
        ensures
            r == self.spec_raw(),
    {
        self.raw
    }
}

} // verus!
