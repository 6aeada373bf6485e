//! Position model of the agent: estimated coordinates under partial
//! observability, accumulated displacement, and the current intended
//! movement direction.
//!
//! Absolute position is unobservable except by colliding with a boundary, so
//! each axis is independently either known exactly or unknown, and safety
//! queries fall back to a conservative displacement bound where no exact
//! bound exists.

use vstd::prelude::*;
use vstd::math::abs;
use crate::api::Direction;
use crate::game::map::GameMap;
use crate::game::units::{OptPos, RelPos};

verus! {

/// The agent's estimated position, net displacement since the last reset,
/// and intended movement direction (`None` meaning hold).
#[derive(Clone, Debug)]
pub struct Player {
    pub pos: OptPos,
    pub delta_pos: RelPos,
    pub dir: Option<Direction>,
}

/// Every known axis of `p`'s position lies inside the map: X in
/// `[0, size.0)`, Y in `[0, size.1)`.
pub open spec fn pos_wf(p: Player, map: GameMap) -> bool {
    &&& (p.pos.0 matches Some(x) ==> 0 <= x < map.size.0)
    &&& (p.pos.1 matches Some(y) ==> 0 <= y < map.size.1)
}

/// The state after registering an executed move toward `dir`: displacement
/// gains a unit step on the travelled axis, and a known coordinate on that
/// axis advances by the same unit.
pub open spec fn spec_reg_move(p: Player, dir: Direction) -> Player {
    match dir {
        Direction::North => Player {
            delta_pos: RelPos(p.delta_pos.0, (p.delta_pos.1 + 1) as i32),
            pos: OptPos(
                p.pos.0,
                match p.pos.1 {
                    Some(y) => Some((y + 1) as i32),
                    None => None,
                },
            ),
            ..p
        },
        Direction::East => Player {
            delta_pos: RelPos((p.delta_pos.0 + 1) as i32, p.delta_pos.1),
            pos: OptPos(
                match p.pos.0 {
                    Some(x) => Some((x + 1) as i32),
                    None => None,
                },
                p.pos.1,
            ),
            ..p
        },
        Direction::South => Player {
            delta_pos: RelPos(p.delta_pos.0, (p.delta_pos.1 - 1) as i32),
            pos: OptPos(
                p.pos.0,
                match p.pos.1 {
                    Some(y) => Some((y - 1) as i32),
                    None => None,
                },
            ),
            ..p
        },
        Direction::West => Player {
            delta_pos: RelPos((p.delta_pos.0 - 1) as i32, p.delta_pos.1),
            pos: OptPos(
                match p.pos.0 {
                    Some(x) => Some((x - 1) as i32),
                    None => None,
                },
                p.pos.1,
            ),
            ..p
        },
    }
}

/// The unit step of `dir` does not overflow the displacement counter or a
/// known coordinate on the travelled axis.
pub open spec fn spec_reg_move_ok(p: Player, dir: Direction) -> bool {
    match dir {
        Direction::North => p.delta_pos.1 < i32::MAX && (p.pos.1 matches Some(y) ==> y
            < i32::MAX),
        Direction::East => p.delta_pos.0 < i32::MAX && (p.pos.0 matches Some(x) ==> x
            < i32::MAX),
        Direction::South => p.delta_pos.1 > i32::MIN && (p.pos.1 matches Some(y) ==> y
            > i32::MIN),
        Direction::West => p.delta_pos.0 > i32::MIN && (p.pos.0 matches Some(x) ==> x
            > i32::MIN),
    }
}

/// The state after a wall bump while moving toward `dir`: the travelled axis
/// is pinned to the boundary coordinate just hit. Moving North pins Y to
/// `size.1 - 1`, East pins X to `size.0 - 1`, South pins Y to 0, West pins X
/// to 0.
pub open spec fn spec_map_wall(p: Player, dir: Direction, map: GameMap) -> Player {
    match dir {
        Direction::North => Player { pos: OptPos(p.pos.0, Some((map.size.1 - 1) as i32)), ..p },
        Direction::East => Player { pos: OptPos(Some((map.size.0 - 1) as i32), p.pos.1), ..p },
        Direction::South => Player { pos: OptPos(p.pos.0, Some(0i32)), ..p },
        Direction::West => Player { pos: OptPos(Some(0i32), p.pos.1), ..p },
    }
}

/// One axis of the safety query: a zero offset is always safe; a known
/// coordinate must stay inside `[0, size)`; an unknown coordinate must not
/// move the net displacement further from zero than it already is.
pub open spec fn spec_axis_safe(known: Option<i32>, delta: int, off: int, size: int) -> bool {
    off == 0 || match known {
        Some(x) => 0 <= x + off < size,
        None => abs(delta + off) <= abs(delta),
    }
}

/// Whether moving by `off` keeps the agent inside the map on every known
/// axis and within explored displacement on every unknown axis.
pub open spec fn spec_is_pos_safe(p: Player, off: RelPos, map: GameMap) -> bool {
    &&& spec_axis_safe(p.pos.0, p.delta_pos.0 as int, off.0 as int, map.size.0 as int)
    &&& spec_axis_safe(p.pos.1, p.delta_pos.1 as int, off.1 as int, map.size.1 as int)
}

impl Player {
    /// A fresh player: both axes unknown, no displacement, no intended
    /// direction.
    pub fn new() -> (p: Self)
        ensures
            p.pos.0 is None && p.pos.1 is None,
            p.delta_pos.0 == 0 && p.delta_pos.1 == 0,
            p.dir is None,
    {
        Player { pos: OptPos(None, None), delta_pos: RelPos(0, 0), dir: None }
    }

    /// Forget the position: both axes unknown and displacement zeroed, as on
    /// death or level change. The intended direction is kept.
    pub fn reset_pos(&mut self)
        ensures
            final(self).pos.0 is None && final(self).pos.1 is None,
            final(self).delta_pos.0 == 0 && final(self).delta_pos.1 == 0,
            final(self).dir == old(self).dir,
    {
        self.pos = OptPos(None, None);
        self.delta_pos = RelPos(0, 0);
    }

    /// Replace the intended direction (`None` meaning hold).
    pub fn set_dir(&mut self, dir: Option<Direction>)
        ensures
            final(self).dir == dir,
            final(self).pos == old(self).pos,
            final(self).delta_pos == old(self).delta_pos,
    {
        self.dir = dir;
    }

    /// The current intended direction.
    pub fn get_dir(&self) -> (d: Option<Direction>)
        ensures
            d == self.dir,
    {
        self.dir
    }

    /// Register a move that actually executed: a unit step toward `dir`.
    pub fn reg_move(&mut self, dir: Direction)
        requires
            spec_reg_move_ok(*old(self), dir),
        ensures
            *final(self) == spec_reg_move(*old(self), dir),
    {
        match dir {
            Direction::North => {
                self.delta_pos.1 = self.delta_pos.1 + 1;
                if let Some(y) = self.pos.1 {
                    self.pos.1 = Some(y + 1);
                }
            },
            Direction::East => {
                self.delta_pos.0 = self.delta_pos.0 + 1;
                if let Some(x) = self.pos.0 {
                    self.pos.0 = Some(x + 1);
                }
            },
            Direction::South => {
                self.delta_pos.1 = self.delta_pos.1 - 1;
                if let Some(y) = self.pos.1 {
                    self.pos.1 = Some(y - 1);
                }
            },
            Direction::West => {
                self.delta_pos.0 = self.delta_pos.0 - 1;
                if let Some(x) = self.pos.0 {
                    self.pos.0 = Some(x - 1);
                }
            },
        }
    }

    /// Record a wall bump while moving toward `dir`: pin the travelled axis
    /// to the boundary coordinate that was hit. This is the only source of
    /// exact position knowledge.
    pub fn map_wall(&mut self, dir: Direction, map: &GameMap)
        requires
            map.wf(),
        ensures
            *final(self) == spec_map_wall(*old(self), dir, *map),
            pos_wf(*old(self), *map) ==> pos_wf(*final(self), *map),
    {
        match dir {
            Direction::North => {
                self.pos.1 = Some(map.size.1 - 1);
            },
            Direction::East => {
                self.pos.0 = Some(map.size.0 - 1);
            },
            Direction::South => {
                self.pos.1 = Some(0);
            },
            Direction::West => {
                self.pos.0 = Some(0);
            },
        }
    }

    /// Whether the relative move `pos` is safe to issue. Pure: takes only
    /// shared references and mutates nothing.
    pub fn is_pos_safe(&self, pos: RelPos, map: &GameMap) -> (r: bool)
        ensures
            r == spec_is_pos_safe(*self, pos, *map),
    {
        if pos.0 != 0 {
            match self.pos.0 {
                Some(x) => {
                    let abs_x = x as i64 + pos.0 as i64;
                    if abs_x >= map.size.0 as i64 || abs_x < 0 {
                        return false;
                    }
                },
                None => {
                    if abs_i64(self.delta_pos.0 as i64) < abs_i64(
                        self.delta_pos.0 as i64 + pos.0 as i64,
                    ) {
                        return false;
                    }
                },
            }
        }
        if pos.1 != 0 {
            match self.pos.1 {
                Some(y) => {
                    let abs_y = y as i64 + pos.1 as i64;
                    if abs_y >= map.size.1 as i64 || abs_y < 0 {
                        return false;
                    }
                },
                None => {
                    if abs_i64(self.delta_pos.1 as i64) < abs_i64(
                        self.delta_pos.1 as i64 + pos.1 as i64,
                    ) {
                        return false;
                    }
                },
            }
        }
        true
    }
}

impl Default for Player {
    /// A fresh player, as `Player::new` builds it.
    fn default() -> (p: Self)
        ensures
            p.pos.0 is None && p.pos.1 is None,
            p.delta_pos.0 == 0 && p.delta_pos.1 == 0,
            p.dir is None,
    {
        Player::new()
    }
}

/// The magnitude of `v`.
fn abs_i64(v: i64) -> (r: i64)
    requires
        v > i64::MIN,
    ensures
        r == abs(v as int),
{
    if v < 0 {
        -v
    } else {
        v
    }
}

/// `after` is `before` with the position forgotten: both axes unknown,
/// displacement zeroed, the intended direction kept.
pub open spec fn spec_pos_reset(before: Player, after: Player) -> bool {
    &&& after.pos.0 is None && after.pos.1 is None
    &&& after.delta_pos.0 == 0 && after.delta_pos.1 == 0
    &&& after.dir == before.dir
}

/// One recorded observation about position: a wall bump toward a direction,
/// or an executed unit move toward a direction.
pub enum PosOp {
    Bump(Direction),
    Step(Direction),
}

/// The position state after one recorded observation.
pub open spec fn spec_apply_op(p: Player, op: PosOp, map: GameMap) -> Player {
    match op {
        PosOp::Bump(d) => spec_map_wall(p, d, map),
        PosOp::Step(d) => spec_reg_move(p, d),
    }
}

/// A step can really have happened in state `p`: a move that executes keeps
/// the agent inside the map, so if the travelled axis is known, the stepped
/// coordinate is still inside `[0, size)` on that axis.
pub open spec fn spec_op_admissible(p: Player, op: PosOp, map: GameMap) -> bool {
    match op {
        PosOp::Bump(_) => true,
        PosOp::Step(d) => match d {
            Direction::North => p.pos.1 matches Some(y) ==> y + 1 < map.size.1,
            Direction::East => p.pos.0 matches Some(x) ==> x + 1 < map.size.0,
            Direction::South => p.pos.1 matches Some(y) ==> y - 1 >= 0,
            Direction::West => p.pos.0 matches Some(x) ==> x - 1 >= 0,
        },
    }
}

/// The position state after a whole sequence of recorded observations,
/// applied left to right.
pub open spec fn spec_apply_ops(p: Player, ops: Seq<PosOp>, map: GameMap) -> Player
    decreases ops.len(),
{
    if ops.len() == 0 {
        p
    } else {
        spec_apply_ops(spec_apply_op(p, ops[0], map), ops.drop_first(), map)
    }
}

/// Every observation in the sequence is admissible in the state it is
/// applied to.
pub open spec fn spec_ops_admissible(p: Player, ops: Seq<PosOp>, map: GameMap) -> bool
    decreases ops.len(),
{
    ops.len() == 0 || (spec_op_admissible(p, ops[0], map) && spec_ops_admissible(
        spec_apply_op(p, ops[0], map),
        ops.drop_first(),
        map,
    ))
}

/// One admissible observation keeps every known axis inside the map: a bump
/// pins an axis to a boundary coordinate, which is inside the map, and an
/// admissible step moves a known coordinate to a value that is inside by
/// admissibility.
pub proof fn lemma_op_preserves_pos_wf(p: Player, op: PosOp, map: GameMap)
    requires
        map.wf(),
        pos_wf(p, map),
        spec_op_admissible(p, op, map),
    ensures
        pos_wf(spec_apply_op(p, op, map), map),
{
}

/// A known axis, once set, never leaves `[0, size)` under any sequence of
/// wall bumps and admissible executed moves.
pub proof fn lemma_pos_ops_preserve_wf(p: Player, ops: Seq<PosOp>, map: GameMap)
    requires
        map.wf(),
        pos_wf(p, map),
        spec_ops_admissible(p, ops, map),
    ensures
        pos_wf(spec_apply_ops(p, ops, map), map),
    decreases ops.len(),
{
    if ops.len() > 0 {
        lemma_op_preserves_pos_wf(p, ops[0], map);
        lemma_pos_ops_preserve_wf(spec_apply_op(p, ops[0], map), ops.drop_first(), map);
    }
}

} // verus!
