//! Types shared with the remote action API: the movement directions and the
//! typed results that calls decode into. The transport itself (request
//! construction, JSON decoding, error classification at the wire) lives
//! outside this crate and hands these plain values in.

use vstd::prelude::*;

mod objs;

pub use objs::{
    ActionInfo, ApiError, GameInfo, HitInfo, MoveInfo, PeakInfo, PerfStats, RadarInfo,
    RadarResult, ScanInfo, ShootInfo, TeleportInfo, UltInfo, is_already_running_message,
    is_no_game_to_close_message, is_terminal_message, spec_best_move_dir, spec_starts_with,
    str_starts_with,
};

verus! {

/// The four movement directions. Move, hit, dash, shoot and peek calls are
/// all parameterized by one of these.
#[derive(Clone, Copy, Debug, PartialEq, Eq)]
pub enum Direction {
    North,
    East,
    South,
    West,
}

/// The direction opposite to `d`: North and South swap, East and West swap.
pub open spec fn spec_opposite(d: Direction) -> Direction {
    match d {
        Direction::North => Direction::South,
        Direction::East => Direction::West,
        Direction::South => Direction::North,
        Direction::West => Direction::East,
    }
}

impl Direction {
    /// The opposite direction.
    pub fn opposite(&self) -> (r: Direction)
        ensures
            r == spec_opposite(*self),
    {
        match self {
            Direction::North => Direction::South,
            Direction::East => Direction::West,
            Direction::South => Direction::North,
            Direction::West => Direction::East,
        }
    }

    /// The numeric code the remote API uses for this direction in request
    /// paths.
    pub fn code(&self) -> (r: u64)
        ensures
            r == match *self {
                Direction::North => 0u64,
                Direction::East => 1u64,
                Direction::South => 2u64,
                Direction::West => 3u64,
            },
    {
        match self {
            Direction::North => 0,
            Direction::East => 1,
            Direction::South => 2,
            Direction::West => 3,
        }
    }
}

/// Taking the opposite direction twice gives the original direction back:
/// `opposite` is an involution.
pub proof fn lemma_opposite_involution(d: Direction)
    ensures
        spec_opposite(spec_opposite(d)) == d,
{
}

} // verus!
