//! The logging interface the orchestrator and callbacks write through.
//!
//! The sink itself (a file, a terminal) is an external collaborator; this
//! crate only fixes the interface: append one line of text.

use vstd::prelude::*;

verus! {

/// An append-line sink. Implementations live outside this crate.
pub trait Logger {
    fn logln(&mut self, line: &str);
}

} // verus!
