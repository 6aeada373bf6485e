//! Typed results of remote action calls, and classification of the error
//! messages the remote service sends back.
//!
//! Every action result carries an `executed` flag; a rejected action still
//! decodes, but its effect fields are meaningless and must not be applied.

use vstd::prelude::*;
use crate::api::Direction;

verus! {

/// Capability common to every action result: the action name the service
/// echoed back, and whether the action was actually executed.
pub trait ActionInfo {
    fn action(&self) -> String;

    fn executed(&self) -> bool;
}

/// An error message the remote service sent instead of a result.
#[derive(Clone, Debug)]
pub struct ApiError {
    pub desc: String,
    pub error: bool,
}

impl ApiError {
    /// An error with the given description.
    pub fn new(desc: String) -> (r: Self)
        ensures
            r.desc == desc,
            r.error,
    {
        ApiError { desc, error: true }
    }
}

/// `p` is a prefix of `s`.
pub open spec fn spec_starts_with(s: Seq<char>, p: Seq<char>) -> bool {
    p.len() <= s.len() && s.subrange(0, p.len() as int) == p
}

/// Whether `s` starts with `prefix`, comparing character by character.
pub fn str_starts_with(s: &str, prefix: &str) -> (r: bool)
    ensures
        r == spec_starts_with(s@, prefix@),
{
    let n = prefix.unicode_len();
    let m = s.unicode_len();
    if n > m {
        return false;
    }
    let mut i: usize = 0;
    while i < n
        invariant
            i <= n,
            n == prefix@.len(),
            m == s@.len(),
            n <= m,
            forall|j: int| 0 <= j < i ==> s@[j] == prefix@[j],
        decreases n - i,
    {
        if s.get_char(i) != prefix.get_char(i) {
            assert(s@.subrange(0, n as int)[i as int] == s@[i as int]);
            return false;
        }
        i += 1;
    }
    proof {
        assert(s@.subrange(0, n as int) =~= prefix@);
    }
    true
}

/// Whether an error message marks the terminal "session no longer exists"
/// condition: a loop that sees it exits instead of retrying.
pub fn is_terminal_message(msg: &str) -> (r: bool)
    ensures
        r == spec_starts_with(msg@, "No running game"@),
{
    str_starts_with(msg, "No running game")
}

/// Whether an error message from creating a game only says that a game is
/// already running, which callers treat as success without a fresh game.
pub fn is_already_running_message(msg: &str) -> (r: bool)
    ensures
        r == spec_starts_with(msg@, "You already own a running game"@),
{
    str_starts_with(msg, "You already own a running game")
}

/// Whether an error message from closing a game only says that no game was
/// open, which callers treat as success without a closed game.
pub fn is_no_game_to_close_message(msg: &str) -> (r: bool)
    ensures
        r == spec_starts_with(msg@, "There is no game which could be closed"@),
{
    str_starts_with(msg, "There is no game which could be closed")
}

/// Basic information about a game session.
#[derive(Clone, Debug)]
pub struct GameInfo {
    pub gameid: String,
    pub running: bool,
    pub level: String,
}

/// Result of a movement command.
#[derive(Clone, Debug)]
pub struct MoveInfo {
    pub action: String,
    pub executed: bool,
    /// Whether the agent actually moved; an executed move with `moved`
    /// false is a wall bump.
    pub moved: bool,
}

impl MoveInfo {
    pub fn new(action: String, executed: bool, moved: bool) -> (r: Self)
        ensures
            r.action == action && r.executed == executed && r.moved == moved,
    {
        MoveInfo { action, executed, moved }
    }
}

impl ActionInfo for MoveInfo {
    fn action(&self) -> String {
        self.action.clone()
    }

    fn executed(&self) -> bool {
        self.executed
    }
}

/// Result of a teleport command.
#[derive(Clone, Debug)]
pub struct TeleportInfo {
    pub action: String,
    pub executed: bool,
    pub in_wall: bool,
}

impl TeleportInfo {
    pub fn new(action: String, executed: bool, in_wall: bool) -> (r: Self)
        ensures
            r.action == action && r.executed == executed && r.in_wall == in_wall,
    {
        TeleportInfo { action, executed, in_wall }
    }
}

impl ActionInfo for TeleportInfo {
    fn action(&self) -> String {
        self.action.clone()
    }

    fn executed(&self) -> bool {
        self.executed
    }
}

/// Entity counts a radar scan reported, per direction plus the agent's own
/// block.
#[derive(Clone, Debug)]
pub struct RadarResult {
    pub north: u16,
    pub east: u16,
    pub south: u16,
    pub west: u16,
    pub sameblock: u16,
}

/// The direction whose radar count is strictly greatest, ties broken by the
/// fixed priority North, East, South, West; North when every count is zero.
pub open spec fn spec_best_move_dir(r: RadarResult) -> Direction {
    if r.west > r.north && r.west > r.east && r.west > r.south {
        Direction::West
    } else if r.south > r.north && r.south > r.east {
        Direction::South
    } else if r.east > r.north {
        Direction::East
    } else {
        Direction::North
    }
}

impl RadarResult {
    /// The most promising movement direction: the strictly greatest count
    /// wins, an exact tie goes to the first of North, East, South, West, and
    /// all-zero counts fall back to North.
    pub fn best_move_dir(&self) -> (d: Direction)
        ensures
            d == spec_best_move_dir(*self),
    {
        let mut max_dir = Direction::North;
        let mut max_dir_val: u16 = 0;

        if self.north > max_dir_val {
            max_dir = Direction::North;
            max_dir_val = self.north;
        }

        if self.east > max_dir_val {
            max_dir = Direction::East;
            max_dir_val = self.east;
        }

        if self.south > max_dir_val {
            max_dir = Direction::South;
            max_dir_val = self.south;
        }

        if self.west > max_dir_val {
            max_dir = Direction::West;
        }

        max_dir
    }
}

/// Result of a radar command.
#[derive(Clone, Debug)]
pub struct RadarInfo {
    pub action: String,
    pub executed: bool,
    pub results: RadarResult,
}

impl RadarInfo {
    pub fn new(action: String, executed: bool, results: RadarResult) -> (r: Self)
        ensures
            r.action == action && r.executed == executed && r.results == results,
    {
        RadarInfo { action, executed, results }
    }

    /// The most promising movement direction of the carried radar counts.
    pub fn best_move_dir(&self) -> (d: Direction)
        ensures
            d == spec_best_move_dir(self.results),
    {
        self.results.best_move_dir()
    }
}

impl ActionInfo for RadarInfo {
    fn action(&self) -> String {
        self.action.clone()
    }

    fn executed(&self) -> bool {
        self.executed
    }
}

/// Result of a scan command: the relative offset to the nearest other
/// entity, each axis possibly unknown.
#[derive(Clone, Debug)]
pub struct ScanInfo {
    pub action: String,
    pub executed: bool,
    pub nearest: crate::game::units::OptPos,
}

impl ScanInfo {
    pub fn new(action: String, executed: bool, nearest: crate::game::units::OptPos) -> (r: Self)
        ensures
            r.action == action && r.executed == executed && r.nearest == nearest,
    {
        ScanInfo { action, executed, nearest }
    }
}

impl ActionInfo for ScanInfo {
    fn action(&self) -> String {
        self.action.clone()
    }

    fn executed(&self) -> bool {
        self.executed
    }
}

/// Result of a peek command.
#[derive(Clone, Debug)]
pub struct PeakInfo {
    pub action: String,
    pub executed: bool,
    pub players: u16,
    pub dist: Option<i32>,
}

impl PeakInfo {
    pub fn new(action: String, executed: bool, players: u16, dist: Option<i32>) -> (r: Self)
        ensures
            r.action == action && r.executed == executed && r.players == players
                && r.dist == dist,
    {
        PeakInfo { action, executed, players, dist }
    }
}

impl ActionInfo for PeakInfo {
    fn action(&self) -> String {
        self.action.clone()
    }

    fn executed(&self) -> bool {
        self.executed
    }
}

/// Result of a melee hit command.
#[derive(Clone, Debug)]
pub struct HitInfo {
    pub action: String,
    pub executed: bool,
    pub critical: u32,
    pub hit: u32,
}

impl HitInfo {
    pub fn new(action: String, executed: bool, critical: u32, hit: u32) -> (r: Self)
        ensures
            r.action == action && r.executed == executed && r.critical == critical
                && r.hit == hit,
    {
        HitInfo { action, executed, critical, hit }
    }
}

impl ActionInfo for HitInfo {
    fn action(&self) -> String {
        self.action.clone()
    }

    fn executed(&self) -> bool {
        self.executed
    }
}

/// Result of a ranged shot command.
#[derive(Clone, Debug)]
pub struct ShootInfo {
    pub action: String,
    pub executed: bool,
    pub hit: bool,
}

impl ShootInfo {
    pub fn new(action: String, executed: bool, hit: bool) -> (r: Self)
        ensures
            r.action == action && r.executed == executed && r.hit == hit,
    {
        ShootInfo { action, executed, hit }
    }
}

impl ActionInfo for ShootInfo {
    fn action(&self) -> String {
        self.action.clone()
    }

    fn executed(&self) -> bool {
        self.executed
    }
}

/// Result of the special attack command.
#[derive(Clone, Debug)]
pub struct UltInfo {
    pub action: String,
    pub executed: bool,
    pub hits: u32,
}

impl UltInfo {
    pub fn new(action: String, executed: bool, hits: u32) -> (r: Self)
        ensures
            r.action == action && r.executed == executed && r.hits == hits,
    {
        UltInfo { action, executed, hits }
    }
}

impl ActionInfo for UltInfo {
    fn action(&self) -> String {
        self.action.clone()
    }

    fn executed(&self) -> bool {
        self.executed
    }
}

/// Cumulative kill and death counters for a player, as the stats endpoint
/// reports them.
#[derive(Clone, Copy, Debug)]
pub struct PerfStats {
    pub deaths: u32,
    pub kills: u32,
}

impl Default for PerfStats {
    /// Zero counters.
    fn default() -> (r: Self)
        ensures
            r.deaths == 0 && r.kills == 0,
    {
        PerfStats { deaths: 0, kills: 0 }
    }
}

} // verus!
