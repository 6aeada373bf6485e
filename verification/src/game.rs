//! Shared game state and the decision logic of the action loops.
//!
//! Each action loop (movement, melee, radar and dash, teleport and scan,
//! stats polling) runs as an independent task outside this crate; the
//! per-cycle decisions they make — what to do with a result, which direction
//! to intend next, how long to sleep — are the verified functions here.

use vstd::prelude::*;

pub mod diff;
pub mod logging;
pub mod map;
pub mod units;

pub use diff::{GameEvent, StatsDiff, StatsSnapshot};
pub use logging::Logger;
pub use map::GameMap;
pub use units::{AbsPos, OptPos, RelPos};

use crate::api::{spec_best_move_dir, spec_opposite, Direction, HitInfo, MoveInfo, RadarResult,
    ScanInfo};
use crate::player::{spec_map_wall, spec_reg_move, spec_reg_move_ok, Player};

verus! {

/// Target period of the movement, melee and radar loops, in milliseconds.
pub const ACTION_PERIOD_MS: u64 = 250;

/// Period of the stats-polling loop, in milliseconds.
pub const STATS_PERIOD_MS: u64 = 50;

/// Rolling cooldown between opportunistic dashes, in milliseconds.
pub const DASH_COOLDOWN_MS: u64 = 5000;

/// Polling interval while scanning for a teleport target, in milliseconds.
pub const SCAN_POLL_MS: u64 = 2000;

/// Cooldown after a successful teleport, in milliseconds.
pub const TELEPORT_COOLDOWN_MS: u64 = 20000;

/// Single-slot callback table for the five game events. Registering a
/// callback for a slot replaces, never accumulates, the previous one.
pub struct Events<C> {
    pub on_kill: Option<C>,
    pub on_death: Option<C>,
    pub on_new_level: Option<C>,
    pub on_start: Option<C>,
    pub on_finish: Option<C>,
}

/// `ev` with the kill slot replaced.
pub open spec fn spec_with_on_kill<C>(ev: Events<C>, cb: Option<C>) -> Events<C> {
    Events { on_kill: cb, ..ev }
}

/// `ev` with the death slot replaced.
pub open spec fn spec_with_on_death<C>(ev: Events<C>, cb: Option<C>) -> Events<C> {
    Events { on_death: cb, ..ev }
}

/// `ev` with the new-level slot replaced.
pub open spec fn spec_with_on_new_level<C>(ev: Events<C>, cb: Option<C>) -> Events<C> {
    Events { on_new_level: cb, ..ev }
}

/// `ev` with the start slot replaced.
pub open spec fn spec_with_on_start<C>(ev: Events<C>, cb: Option<C>) -> Events<C> {
    Events { on_start: cb, ..ev }
}

/// `ev` with the finish slot replaced.
pub open spec fn spec_with_on_finish<C>(ev: Events<C>, cb: Option<C>) -> Events<C> {
    Events { on_finish: cb, ..ev }
}

impl<C> Events<C> {
    /// Replace the kill callback.
    pub fn set_on_kill(&mut self, cb: Option<C>)
        ensures
            *final(self) == spec_with_on_kill(*old(self), cb),
    {
        self.on_kill = cb;
    }

    /// Replace the death callback.
    pub fn set_on_death(&mut self, cb: Option<C>)
        ensures
            *final(self) == spec_with_on_death(*old(self), cb),
    {
        self.on_death = cb;
    }

    /// Replace the new-level callback.
    pub fn set_on_new_level(&mut self, cb: Option<C>)
        ensures
            *final(self) == spec_with_on_new_level(*old(self), cb),
    {
        self.on_new_level = cb;
    }

    /// Replace the start callback.
    pub fn set_on_start(&mut self, cb: Option<C>)
        ensures
            *final(self) == spec_with_on_start(*old(self), cb),
    {
        self.on_start = cb;
    }

    /// Replace the finish callback.
    pub fn set_on_finish(&mut self, cb: Option<C>)
        ensures
            *final(self) == spec_with_on_finish(*old(self), cb),
    {
        self.on_finish = cb;
    }
}

impl<C> Default for Events<C> {
    /// No callback registered in any slot.
    fn default() -> (ev: Self)
        ensures
            ev.on_kill is None,
            ev.on_death is None,
            ev.on_new_level is None,
            ev.on_start is None,
            ev.on_finish is None,
    {
        Events {
            on_kill: None,
            on_death: None,
            on_new_level: None,
            on_start: None,
            on_finish: None,
        }
    }
}

/// Registering a callback and then registering another one for the same slot
/// leaves exactly the second one active, for every slot: replacement never
/// accumulates.
pub proof fn lemma_register_replaces<C>(ev: Events<C>, first: Option<C>, second: Option<C>)
    ensures
        spec_with_on_kill(spec_with_on_kill(ev, first), second) == spec_with_on_kill(ev, second),
        spec_with_on_death(spec_with_on_death(ev, first), second) == spec_with_on_death(
            ev,
            second,
        ),
        spec_with_on_new_level(spec_with_on_new_level(ev, first), second)
            == spec_with_on_new_level(ev, second),
        spec_with_on_start(spec_with_on_start(ev, first), second) == spec_with_on_start(
            ev,
            second,
        ),
        spec_with_on_finish(spec_with_on_finish(ev, first), second) == spec_with_on_finish(
            ev,
            second,
        ),
{
}

/// One timestamped snapshot of the cumulative kill and death counters, used
/// to derive running-average rates.
#[derive(Clone, Copy, Debug)]
pub struct Stamp {
    pub kills: u32,
    pub deaths: u32,
    pub at_ms: u64,
}

/// Cumulative session statistics, the selected level parameters, and the
/// append-only stamp history.
#[derive(Clone, Debug)]
pub struct GameStats {
    pub kills: u32,
    pub deaths: u32,
    pub hits: u32,
    pub criticals: u32,
    pub shots: u32,
    pub map: GameMap,
    pub stamps: Vec<Stamp>,
}

impl GameStats {
    /// Counters are monotonic: every stamp was taken at or below the current
    /// counters, and stamp timestamps never decrease.
    pub open spec fn wf(&self) -> bool {
        &&& forall|i: int|
            0 <= i < self.stamps.len() ==> (#[trigger] self.stamps[i]).kills <= self.kills
                && self.stamps[i].deaths <= self.deaths
        &&& forall|i: int, j: int|
            0 <= i <= j < self.stamps.len() ==> (#[trigger] self.stamps[i]).at_ms <= (
            #[trigger] self.stamps[j]).at_ms
    }

    /// Kill and death counters carried over, everything else fresh: zero
    /// effect counters, no stamps, the default level.
    pub fn clone_nostamp(&self) -> (r: Self)
        ensures
            r.kills == self.kills,
            r.deaths == self.deaths,
            r.hits == 0 && r.criticals == 0 && r.shots == 0,
            r.stamps@.len() == 0,
            r.map.size.0 == 15 && r.map.size.1 == 15,
            r.map.kills_goal == Some(20u32),
            r.map.max_time == 900,
    {
        GameStats {
            kills: self.kills,
            deaths: self.deaths,
            hits: 0,
            criticals: 0,
            shots: 0,
            map: GameMap::default_level(),
            stamps: Vec::new(),
        }
    }

    /// Milliseconds since the most recent stamp, or `None` when no stamp
    /// exists yet.
    pub fn last_stamp_elapsed(&self, now_ms: u64) -> (r: Option<u64>)
        requires
            self.stamps@.len() > 0 ==> self.stamps@.last().at_ms <= now_ms,
        ensures
            self.stamps@.len() == 0 ==> r is None,
            self.stamps@.len() > 0 ==> r == Some((now_ms - self.stamps@.last().at_ms) as u64),
    {
        if self.stamps.len() > 0 {
            let st = &self.stamps[self.stamps.len() - 1];
            Some(now_ms - st.at_ms)
        } else {
            None
        }
    }

    /// Kills since the most recent stamp, or `None` when no stamp exists
    /// yet.
    pub fn last_kills(&self) -> (r: Option<u32>)
        requires
            self.wf(),
        ensures
            self.stamps@.len() == 0 ==> r is None,
            self.stamps@.len() > 0 ==> r == Some((self.kills - self.stamps@.last().kills) as u32),
    {
        if self.stamps.len() > 0 {
            let st = &self.stamps[self.stamps.len() - 1];
            Some(self.kills - st.kills)
        } else {
            None
        }
    }

    /// Deaths since the most recent stamp, or `None` when no stamp exists
    /// yet.
    pub fn last_deaths(&self) -> (r: Option<u32>)
        requires
            self.wf(),
        ensures
            self.stamps@.len() == 0 ==> r is None,
            self.stamps@.len() > 0 ==> r == Some(
                (self.deaths - self.stamps@.last().deaths) as u32,
            ),
    {
        if self.stamps.len() > 0 {
            let st = &self.stamps[self.stamps.len() - 1];
            Some(self.deaths - st.deaths)
        } else {
            None
        }
    }

    /// Append a stamp of the current counters taken at `now_ms`. Only ever
    /// appends: earlier stamps are never touched.
    pub fn create_stamp(&mut self, now_ms: u64)
        requires
            old(self).stamps@.len() > 0 ==> old(self).stamps@.last().at_ms <= now_ms,
        ensures
            final(self).stamps@ == old(self).stamps@.push(
                (Stamp { kills: old(self).kills, deaths: old(self).deaths, at_ms: now_ms }),
            ),
            final(self).kills == old(self).kills,
            final(self).deaths == old(self).deaths,
            final(self).hits == old(self).hits,
            final(self).criticals == old(self).criticals,
            final(self).shots == old(self).shots,
            final(self).map == old(self).map,
            old(self).wf() ==> final(self).wf(),
    {
        let stamp = Stamp { kills: self.kills, deaths: self.deaths, at_ms: now_ms };
        self.stamps.push(stamp);
        proof {
            if old(self).wf() {
                assert forall|i: int, j: int| 0 <= i <= j < self.stamps.len() implies (
                #[trigger] self.stamps[i]).at_ms <= (#[trigger] self.stamps[j]).at_ms by {
                    if j < self.stamps.len() - 1 {
                    } else if i < j {
                        assert(old(self).stamps[i].at_ms <= old(self).stamps@.last().at_ms);
                    }
                }
            }
        }
    }

    /// The running-average kill rate since the first stamp, as the exact
    /// ratio `(kills * 60000, milliseconds since the first stamp)`; `None`
    /// when no stamp exists yet.
    pub fn kills_per_min(&self, now_ms: u64) -> (r: Option<(u64, u64)>)
        requires
            self.stamps@.len() > 0 ==> self.stamps@[0].at_ms <= now_ms,
        ensures
            self.stamps@.len() == 0 ==> r is None,
            self.stamps@.len() > 0 ==> r == Some(
                (
                    (self.kills as u64 * 60000) as u64,
                    (now_ms - self.stamps@[0].at_ms) as u64,
                ),
            ),
    {
        if self.stamps.len() > 0 {
            let first = &self.stamps[0];
            Some((self.kills as u64 * 60000, now_ms - first.at_ms))
        } else {
            None
        }
    }

    /// The running-average death rate since the first stamp, as the exact
    /// ratio `(deaths * 60000, milliseconds since the first stamp)`; `None`
    /// when no stamp exists yet.
    pub fn deaths_per_min(&self, now_ms: u64) -> (r: Option<(u64, u64)>)
        requires
            self.stamps@.len() > 0 ==> self.stamps@[0].at_ms <= now_ms,
        ensures
            self.stamps@.len() == 0 ==> r is None,
            self.stamps@.len() > 0 ==> r == Some(
                (
                    (self.deaths as u64 * 60000) as u64,
                    (now_ms - self.stamps@[0].at_ms) as u64,
                ),
            ),
    {
        if self.stamps.len() > 0 {
            let first = &self.stamps[0];
            Some((self.deaths as u64 * 60000, now_ms - first.at_ms))
        } else {
            None
        }
    }
}

impl Default for GameStats {
    /// Zero counters, no stamps, the default level.
    fn default() -> (r: Self)
        ensures
            r.kills == 0 && r.deaths == 0,
            r.hits == 0 && r.criticals == 0 && r.shots == 0,
            r.stamps@.len() == 0,
            r.map.size.0 == 15 && r.map.size.1 == 15,
            r.map.kills_goal == Some(20u32),
            r.map.max_time == 900,
            r.wf(),
    {
        GameStats {
            kills: 0,
            deaths: 0,
            hits: 0,
            criticals: 0,
            shots: 0,
            map: GameMap::default_level(),
            stamps: Vec::new(),
        }
    }
}

/// The movement loop's reaction to one move result. A rejected call changes
/// nothing. An executed move that did not actually move is a wall bump: the
/// intended direction flips to its opposite and the travelled axis is pinned
/// to the boundary. An executed move that moved is registered as a unit
/// step.
pub fn apply_move_result(player: &mut Player, map: &GameMap, dir: Direction, info: &MoveInfo)
    requires
        map.wf(),
        info.executed && info.moved ==> spec_reg_move_ok(*old(player), dir),
    ensures
        !info.executed ==> *final(player) == *old(player),
        info.executed && info.moved ==> *final(player) == spec_reg_move(*old(player), dir),
        info.executed && !info.moved ==> ({
            &&& final(player).pos == spec_map_wall(*old(player), dir, *map).pos
            &&& final(player).delta_pos == old(player).delta_pos
            &&& final(player).dir == Some(spec_opposite(dir))
        }),
{
    if !info.executed {
        return ;
    }
    if !info.moved {
        player.set_dir(Some(dir.opposite()));
        player.map_wall(dir, map);
    } else {
        player.reg_move(dir);
    }
}

/// The radar loop's reaction to one executed radar result. A nonzero
/// same-block count means a target is already co-located: the intended
/// direction clears to hold and no dash is suggested. Otherwise the best
/// direction by radar count becomes the intended direction and the dash
/// candidate.
pub fn apply_radar_result(player: &mut Player, results: &RadarResult) -> (dash: Option<
    Direction,
>)
    ensures
        final(player).pos == old(player).pos,
        final(player).delta_pos == old(player).delta_pos,
        results.sameblock == 0 ==> final(player).dir == Some(spec_best_move_dir(*results))
            && dash == Some(spec_best_move_dir(*results)),
        results.sameblock != 0 ==> final(player).dir is None && dash is None,
{
    if results.sameblock == 0 {
        let dir = results.best_move_dir();
        player.set_dir(Some(dir));
        Some(dir)
    } else {
        player.set_dir(None);
        None
    }
}

/// Whether the rolling dash cooldown has passed.
pub fn should_dash(elapsed_ms: u64) -> (r: bool)
    ensures
        r == (elapsed_ms > DASH_COOLDOWN_MS),
{
    elapsed_ms > DASH_COOLDOWN_MS
}

/// The direction the melee loop hits toward: the intended direction,
/// defaulting to North when none is set.
pub fn hit_direction(player: &Player) -> (d: Direction)
    ensures
        d == match player.dir {
            Some(dd) => dd,
            None => Direction::North,
        },
{
    match player.get_dir() {
        Some(dd) => dd,
        None => Direction::North,
    }
}

/// The melee loop's reaction to one hit result: an executed hit accumulates
/// its hit and critical counts, a rejected one changes nothing.
pub fn apply_hit_result(stats: &mut GameStats, info: &HitInfo)
    requires
        info.executed ==> old(stats).hits + info.hit <= u32::MAX && old(stats).criticals
            + info.critical <= u32::MAX,
    ensures
        !info.executed ==> *final(stats) == *old(stats),
        info.executed ==> ({
            &&& final(stats).hits == old(stats).hits + info.hit
            &&& final(stats).criticals == old(stats).criticals + info.critical
            &&& final(stats).kills == old(stats).kills
            &&& final(stats).deaths == old(stats).deaths
            &&& final(stats).shots == old(stats).shots
            &&& final(stats).map == old(stats).map
            &&& final(stats).stamps@ == old(stats).stamps@
        }),
{
    if !info.executed {
        return ;
    }
    stats.hits = stats.hits + info.hit;
    stats.criticals = stats.criticals + info.critical;
}

/// The teleport loop's reading of one scan result: the fully-known relative
/// offset to the nearest entity, if the scan executed and both axes are
/// present.
pub fn scan_target(info: &ScanInfo) -> (r: Option<RelPos>)
    ensures
        !info.executed ==> r is None,
        info.executed ==> match r {
            Some(p) => info.nearest.0 == Some(p.0) && info.nearest.1 == Some(p.1),
            None => info.nearest.0 is None || info.nearest.1 is None,
        },
{
    if info.executed {
        info.nearest.try_conv()
    } else {
        None
    }
}

/// The sleep that holds a loop's cadence: the target period minus the
/// observed latency softened by the 3/10 compensation factor, floored at
/// zero.
pub open spec fn spec_comp_sleep_ms(target_ms: u64, latency_ms: u64) -> int {
    if target_ms > latency_ms * 3 / 10 {
        target_ms - latency_ms * 3 / 10
    } else {
        0
    }
}

/// Compute the end-of-cycle sleep from the loop's target period and the
/// observed latency of this cycle's call.
pub fn comp_sleep_ms(target_ms: u64, latency_ms: u64) -> (r: u64)
    requires
        latency_ms <= u64::MAX / 3,
    ensures
        r == spec_comp_sleep_ms(target_ms, latency_ms),
{
    let comp = latency_ms * 3 / 10;
    if target_ms > comp {
        target_ms - comp
    } else {
        0
    }
}

} // verus!
