//! The edge-triggered stats diff engine: turns two successive polled
//! counter snapshots into a sequence of discrete one-shot events, applied
//! one unit of change at a time so that every event's callback observes the
//! incrementally updated stats record.
//!
//! Per poll the order is fixed: kill events first, then death events, then
//! the level transition (position reset, the new-level event, and one more
//! kill event — level completion counts as a scoring kill by design).

use vstd::prelude::*;
use crate::game::GameStats;
use crate::player::{spec_pos_reset, Player};

verus! {

/// The slice of one polled stats result the diff engine compares: the
/// cumulative counters and the level name.
#[derive(Clone, Debug)]
pub struct StatsSnapshot {
    pub kills: u32,
    pub deaths: u32,
    pub level_name: String,
}

impl StatsSnapshot {
    /// A snapshot with the given fields.
    pub fn new(kills: u32, deaths: u32, level_name: String) -> (r: Self)
        ensures
            r.kills == kills,
            r.deaths == deaths,
            r.level_name == level_name,
    {
        StatsSnapshot { kills, deaths, level_name }
    }

    /// The all-zero, empty-name snapshot a polling loop starts from on
    /// entry; it is not carried across loop restarts.
    pub fn initial() -> (r: Self)
        ensures
            r.kills == 0,
            r.deaths == 0,
            r.level_name@ == Seq::<char>::empty(),
    {
        StatsSnapshot { kills: 0, deaths: 0, level_name: String::new() }
    }
}

/// A discrete game event derived from counter changes.
#[derive(Clone, Copy, Debug, PartialEq, Eq, Structural)]
pub enum GameEvent {
    Kill,
    Death,
    NewLevel,
}

/// How many kills the current snapshot gained over the previous one.
pub open spec fn spec_kill_delta(prev: StatsSnapshot, cur: StatsSnapshot) -> int {
    if cur.kills > prev.kills {
        cur.kills - prev.kills
    } else {
        0
    }
}

/// How many deaths the current snapshot gained over the previous one.
pub open spec fn spec_death_delta(prev: StatsSnapshot, cur: StatsSnapshot) -> int {
    if cur.deaths > prev.deaths {
        cur.deaths - prev.deaths
    } else {
        0
    }
}

/// String inequality of the level names marks a level transition.
pub open spec fn spec_level_changed(prev: StatsSnapshot, cur: StatsSnapshot) -> bool {
    prev.level_name@ != cur.level_name@
}

/// The still-unapplied units of change between two snapshots, in the fixed
/// application order: kills, deaths, the level announcement, the scoring
/// kill for the completed level.
#[derive(Clone, Copy, Debug)]
pub struct StatsDiff {
    pub kills_left: u32,
    pub deaths_left: u32,
    pub announce_left: bool,
    pub level_kill_left: bool,
}

/// The diff of two snapshots, with no unit of change applied yet.
pub open spec fn spec_diff(prev: StatsSnapshot, cur: StatsSnapshot) -> StatsDiff {
    StatsDiff {
        kills_left: spec_kill_delta(prev, cur) as u32,
        deaths_left: spec_death_delta(prev, cur) as u32,
        announce_left: spec_level_changed(prev, cur),
        level_kill_left: spec_level_changed(prev, cur),
    }
}

/// The events a diff will still emit, in order.
pub open spec fn pending(d: StatsDiff) -> Seq<GameEvent> {
    Seq::new(d.kills_left as nat, |i: int| GameEvent::Kill) + Seq::new(
        d.deaths_left as nat,
        |i: int| GameEvent::Death,
    ) + (if d.announce_left {
        seq![GameEvent::NewLevel]
    } else {
        Seq::<GameEvent>::empty()
    }) + (if d.level_kill_left {
        seq![GameEvent::Kill]
    } else {
        Seq::<GameEvent>::empty()
    })
}

impl StatsDiff {
    /// Compare two successive snapshots. Counters only ever count up, so a
    /// lower current counter contributes no events.
    pub fn new(prev: &StatsSnapshot, cur: &StatsSnapshot) -> (d: StatsDiff)
        ensures
            d == spec_diff(*prev, *cur),
    {
        let kills_left: u32 = if cur.kills > prev.kills {
            cur.kills - prev.kills
        } else {
            0
        };
        let deaths_left: u32 = if cur.deaths > prev.deaths {
            cur.deaths - prev.deaths
        } else {
            0
        };
        let changed = !(prev.level_name == cur.level_name);
        StatsDiff { kills_left, deaths_left, announce_left: changed, level_kill_left: changed }
    }

    /// Whether every unit of change has been applied.
    pub fn done(&self) -> (b: bool)
        ensures
            b == (pending(*self).len() == 0),
    {
        self.kills_left == 0 && self.deaths_left == 0 && !self.announce_left
            && !self.level_kill_left
    }

    /// Apply the next unit of change, in the fixed order, and return its
    /// event so the caller can fire the matching callback before the next
    /// unit: a kill increments the kill counter; a death increments the
    /// death counter and resets the position model (once per death, however
    /// many kills the poll carried); a level transition first resets the
    /// position model with the new-level event, then counts one more kill.
    /// Returns `None` exactly when nothing is pending, changing nothing.
    pub fn advance(&mut self, stats: &mut GameStats, player: &mut Player) -> (ev: Option<
        GameEvent,
    >)
        requires
            old(stats).kills < u32::MAX,
            old(stats).deaths < u32::MAX,
        ensures
            match ev {
                Some(e) => ({
                    &&& pending(*old(self)) == seq![e] + pending(*final(self))
                    &&& (e == GameEvent::Kill ==> final(stats).kills == old(stats).kills + 1
                        && final(stats).deaths == old(stats).deaths && *final(player) == *old(
                        player,
                    ))
                    &&& (e == GameEvent::Death ==> final(stats).deaths == old(stats).deaths + 1
                        && final(stats).kills == old(stats).kills && spec_pos_reset(
                        *old(player),
                        *final(player),
                    ))
                    &&& (e == GameEvent::NewLevel ==> final(stats).kills == old(stats).kills
                        && final(stats).deaths == old(stats).deaths && spec_pos_reset(
                        *old(player),
                        *final(player),
                    ))
                    &&& final(stats).hits == old(stats).hits
                    &&& final(stats).criticals == old(stats).criticals
                    &&& final(stats).shots == old(stats).shots
                    &&& final(stats).map == old(stats).map
                    &&& final(stats).stamps@ == old(stats).stamps@
                    &&& old(stats).wf() ==> final(stats).wf()
                }),
                None => ({
                    &&& pending(*old(self)).len() == 0
                    &&& *final(self) == *old(self)
                    &&& *final(stats) == *old(stats)
                    &&& *final(player) == *old(player)
                }),
            },
    {
        if self.kills_left > 0 {
            self.kills_left = self.kills_left - 1;
            stats.kills = stats.kills + 1;
            proof {
                assert(pending(*old(self)) =~= seq![GameEvent::Kill] + pending(*self));
            }
            Some(GameEvent::Kill)
        } else if self.deaths_left > 0 {
            self.deaths_left = self.deaths_left - 1;
            stats.deaths = stats.deaths + 1;
            player.reset_pos();
            proof {
                assert(pending(*old(self)) =~= seq![GameEvent::Death] + pending(*self));
            }
            Some(GameEvent::Death)
        } else if self.announce_left {
            self.announce_left = false;
            player.reset_pos();
            proof {
                assert(pending(*old(self)) =~= seq![GameEvent::NewLevel] + pending(*self));
            }
            Some(GameEvent::NewLevel)
        } else if self.level_kill_left {
            self.level_kill_left = false;
            stats.kills = stats.kills + 1;
            proof {
                assert(pending(*old(self)) =~= seq![GameEvent::Kill] + pending(*self));
            }
            Some(GameEvent::Kill)
        } else {
            None
        }
    }
}

/// How many times `e` occurs in `s`.
pub open spec fn spec_count(s: Seq<GameEvent>, e: GameEvent) -> int
    decreases s.len(),
{
    if s.len() == 0 {
        0
    } else {
        spec_count(s.drop_last(), e) + if s.last() == e {
            1int
        } else {
            0int
        }
    }
}

proof fn lemma_count_add(a: Seq<GameEvent>, b: Seq<GameEvent>, e: GameEvent)
    ensures
        spec_count(a + b, e) == spec_count(a, e) + spec_count(b, e),
    decreases b.len(),
{
    if b.len() == 0 {
        assert(a + b =~= a);
    } else {
        lemma_count_add(a, b.drop_last(), e);
        assert((a + b).drop_last() =~= a + b.drop_last());
    }
}

proof fn lemma_count_repeat(n: nat, v: GameEvent, e: GameEvent)
    ensures
        spec_count(Seq::new(n, |i: int| v), e) == if v == e {
            n as int
        } else {
            0int
        },
    decreases n,
{
    if n > 0 {
        lemma_count_repeat((n - 1) as nat, v, e);
        assert(Seq::new(n, |i: int| v).drop_last() =~= Seq::new((n - 1) as nat, |i: int| v));
    }
}

/// Exactly-once semantics per unit of change: across one whole poll, the
/// kill event fires once per gained kill plus once for a level transition,
/// the death event once per gained death, and the new-level event once
/// exactly when the level name changed.
pub proof fn lemma_diff_event_counts(prev: StatsSnapshot, cur: StatsSnapshot)
    ensures
        spec_count(pending(spec_diff(prev, cur)), GameEvent::Kill) == spec_kill_delta(prev, cur)
            + if spec_level_changed(prev, cur) {
            1int
        } else {
            0int
        },
        spec_count(pending(spec_diff(prev, cur)), GameEvent::Death) == spec_death_delta(
            prev,
            cur,
        ),
        spec_count(pending(spec_diff(prev, cur)), GameEvent::NewLevel) == if spec_level_changed(
            prev,
            cur,
        ) {
            1int
        } else {
            0int
        },
{
    let d = spec_diff(prev, cur);
    let ks = Seq::new(d.kills_left as nat, |i: int| GameEvent::Kill);
    let ds = Seq::new(d.deaths_left as nat, |i: int| GameEvent::Death);
    let an = if d.announce_left {
        seq![GameEvent::NewLevel]
    } else {
        Seq::<GameEvent>::empty()
    };
    let lk = if d.level_kill_left {
        seq![GameEvent::Kill]
    } else {
        Seq::<GameEvent>::empty()
    };
    assert(pending(d) == ks + ds + an + lk);
    if spec_level_changed(prev, cur) {
        lemma_count_singleton(GameEvent::NewLevel, GameEvent::Kill);
        lemma_count_singleton(GameEvent::NewLevel, GameEvent::Death);
        lemma_count_singleton(GameEvent::NewLevel, GameEvent::NewLevel);
        lemma_count_singleton(GameEvent::Kill, GameEvent::Kill);
        lemma_count_singleton(GameEvent::Kill, GameEvent::Death);
        lemma_count_singleton(GameEvent::Kill, GameEvent::NewLevel);
    }
    lemma_count_repeat(d.kills_left as nat, GameEvent::Kill, GameEvent::Kill);
    lemma_count_repeat(d.kills_left as nat, GameEvent::Kill, GameEvent::Death);
    lemma_count_repeat(d.kills_left as nat, GameEvent::Kill, GameEvent::NewLevel);
    lemma_count_repeat(d.deaths_left as nat, GameEvent::Death, GameEvent::Kill);
    lemma_count_repeat(d.deaths_left as nat, GameEvent::Death, GameEvent::Death);
    lemma_count_repeat(d.deaths_left as nat, GameEvent::Death, GameEvent::NewLevel);
    lemma_count_add(ks, ds, GameEvent::Kill);
    lemma_count_add(ks + ds, an, GameEvent::Kill);
    lemma_count_add(ks + ds + an, lk, GameEvent::Kill);
    lemma_count_add(ks, ds, GameEvent::Death);
    lemma_count_add(ks + ds, an, GameEvent::Death);
    lemma_count_add(ks + ds + an, lk, GameEvent::Death);
    lemma_count_add(ks, ds, GameEvent::NewLevel);
    lemma_count_add(ks + ds, an, GameEvent::NewLevel);
    lemma_count_add(ks + ds + an, lk, GameEvent::NewLevel);
}

proof fn lemma_count_singleton(v: GameEvent, e: GameEvent)
    ensures
        spec_count(seq![v], e) == if v == e {
            1int
        } else {
            0int
        },
{
    reveal_with_fuel(spec_count, 2);
    assert(seq![v].drop_last() =~= Seq::<GameEvent>::empty());
}

/// A level transition with no counter change emits exactly the two-event
/// sequence: the new-level event (with the position reset), then the one
/// scoring kill for the completed level.
pub proof fn lemma_level_transition_sequence(prev: StatsSnapshot, cur: StatsSnapshot)
    requires
        prev.kills == cur.kills,
        prev.deaths == cur.deaths,
        spec_level_changed(prev, cur),
    ensures
        pending(spec_diff(prev, cur)) == seq![GameEvent::NewLevel, GameEvent::Kill],
{
    assert(pending(spec_diff(prev, cur)) =~= seq![GameEvent::NewLevel, GameEvent::Kill]);
}

} // verus!
