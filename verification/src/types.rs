//! Per-run process state kept beside the resolved configuration.
//!
//! These counters and flags belong to the process, not to the immutable
//! [`crate::cfg::RuntimeConfig`]: they change while it never does.

use vstd::prelude::*;

verus! {

/// Counters the event handlers advance while the process runs.
#[derive(Debug, Clone, Copy, PartialEq, Eq, Structural)]
pub struct Counters {
    pub spawn: i32,
}

/// One-shot flags the event handlers raise while the process runs.
#[derive(Debug, Clone, Copy, PartialEq, Eq, Structural)]
pub struct Flags {
    pub init: bool,
    pub login: bool,
}

impl Default for Counters {
    /// The starting state: nothing counted yet.
    fn default() -> (r: Counters)
        ensures
            r == (Counters { spawn: 0 }),
    {
        Counters { spawn: 0 }
    }
}

impl Default for Flags {
    /// The starting state: nothing raised yet.
    fn default() -> (r: Flags)
        ensures
            r == (Flags { init: false, login: false }),
    {
        Flags { init: false, login: false }
    }
}

} // verus!
