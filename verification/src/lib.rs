//! Driving logic for an autonomous arena-game agent: a position model under
//! partial observability, a stats diff engine turning polled counters into
//! discrete events, per-loop decision functions, and a latency-compensated
//! cadence computation. Remote transport, logging sinks and thread plumbing
//! live outside this crate.

pub mod api;
pub mod game;
pub mod player;

pub use api::ApiError;
pub use game::{AbsPos, OptPos, RelPos};
