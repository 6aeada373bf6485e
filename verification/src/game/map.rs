//! Static per-level bounds and goals, from a small fixed catalog of presets.
//!
//! Selecting the preset that matches the remote level is the caller's
//! responsibility; the catalog is not advanced automatically on a level
//! change.

use vstd::prelude::*;
use crate::game::units::AbsPos;

verus! {

/// Immutable parameters of one level: playfield size, the kill goal (if the
/// level has one), and the time limit in seconds.
#[derive(Clone, Debug)]
pub struct GameMap {
    pub size: AbsPos,
    pub kills_goal: Option<u32>,
    /// Time limit of the level, in whole seconds.
    pub max_time: u32,
}

impl GameMap {
    /// Both side lengths are positive, so that every boundary coordinate
    /// `0` and `size - 1` exists.
    pub open spec fn wf(&self) -> bool {
        self.size.0 >= 1 && self.size.1 >= 1
    }

    /// The starting level: 15 x 15, 20 kills to advance.
    pub fn default_level() -> (m: GameMap)
        ensures
            m.size.0 == 15 && m.size.1 == 15,
            m.kills_goal == Some(20u32),
            m.max_time == 900,
            m.wf(),
    {
        GameMap { size: AbsPos(15, 15), kills_goal: Some(20), max_time: 900 }
    }

    /// A larger 25 x 25 level without a kill goal.
    pub fn bigger_map_level() -> (m: GameMap)
        ensures
            m.size.0 == 25 && m.size.1 == 25,
            m.kills_goal is None,
            m.max_time == 900,
            m.wf(),
    {
        GameMap { size: AbsPos(25, 25), kills_goal: None, max_time: 900 }
    }

    /// A 25 x 25 level with 10 kills to advance.
    pub fn more_bots_level() -> (m: GameMap)
        ensures
            m.size.0 == 25 && m.size.1 == 25,
            m.kills_goal == Some(10u32),
            m.max_time == 900,
            m.wf(),
    {
        GameMap { size: AbsPos(25, 25), kills_goal: Some(10), max_time: 900 }
    }

    /// A 15 x 15 level without a kill goal.
    pub fn new_bots_level() -> (m: GameMap)
        ensures
            m.size.0 == 15 && m.size.1 == 15,
            m.kills_goal is None,
            m.max_time == 900,
            m.wf(),
    {
        GameMap { size: AbsPos(15, 15), kills_goal: None, max_time: 900 }
    }
}

impl Default for GameMap {
    /// The starting level.
    fn default() -> (m: Self)
        ensures
            m.size.0 == 15 && m.size.1 == 15,
            m.kills_goal == Some(20u32),
            m.max_time == 900,
            m.wf(),
    {
        GameMap::default_level()
    }
}

} // verus!
