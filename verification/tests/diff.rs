use doof_bot::game::diff::{GameEvent, StatsDiff, StatsSnapshot};
use doof_bot::game::units::{OptPos, RelPos};
use doof_bot::game::GameStats;
use doof_bot::player::Player;

#[test]
fn diff_fires_kill_per_kill_and_death_per_death() {
    let prev = StatsSnapshot::new(2, 0, String::from("level one"));
    let cur = StatsSnapshot::new(5, 1, String::from("level one"));
    let mut diff = StatsDiff::new(&prev, &cur);

    let mut gstats = GameStats::default();
    gstats.kills = 2;
    let mut player = Player::new();

    let mut kill_events = 0;
    let mut death_events = 0;
    let mut level_events = 0;
    let mut resets = 0;
    loop {
        // Re-seed a known position before each unit of change, so that a
        // position reset performed by that unit is observable.
        player.pos = OptPos(Some(3), Some(4));
        player.delta_pos = RelPos(1, 1);
        match diff.advance(&mut gstats, &mut player) {
            None => break,
            Some(GameEvent::Kill) => kill_events += 1,
            Some(GameEvent::Death) => death_events += 1,
            Some(GameEvent::NewLevel) => level_events += 1,
        }
        if player.pos == OptPos(None, None) {
            resets += 1;
        }
    }

    assert_eq!(kill_events, 3);
    assert_eq!(death_events, 1);
    assert_eq!(level_events, 0);
    // The position is reset once per death, not once per kill.
    assert_eq!(resets, 1);
    assert_eq!(gstats.kills, 5);
    assert_eq!(gstats.deaths, 1);
}

#[test]
fn diff_level_transition_effect_order() {
    let prev = StatsSnapshot::new(4, 2, String::from("alpha"));
    let cur = StatsSnapshot::new(4, 2, String::from("beta"));
    let mut diff = StatsDiff::new(&prev, &cur);

    let mut gstats = GameStats::default();
    gstats.kills = 4;
    gstats.deaths = 2;
    let mut player = Player::new();
    player.pos = OptPos(Some(7), Some(7));
    player.delta_pos = RelPos(2, -3);

    // First the position reset together with the new-level event...
    let first = diff.advance(&mut gstats, &mut player);
    assert_eq!(first, Some(GameEvent::NewLevel));
    assert_eq!(player.pos, OptPos(None, None));
    assert_eq!(player.delta_pos, RelPos(0, 0));
    assert_eq!(gstats.kills, 4);

    // ...then one kill increment with one kill event: level completion
    // counts as a scoring kill.
    let second = diff.advance(&mut gstats, &mut player);
    assert_eq!(second, Some(GameEvent::Kill));
    assert_eq!(gstats.kills, 5);
    assert_eq!(gstats.deaths, 2);

    assert_eq!(diff.advance(&mut gstats, &mut player), None);
}

#[test]
fn diff_equal_snapshots_emit_nothing() {
    let prev = StatsSnapshot::new(3, 1, String::from("gamma"));
    let cur = StatsSnapshot::new(3, 1, String::from("gamma"));
    let mut diff = StatsDiff::new(&prev, &cur);
    assert!(diff.done());
    let mut gstats = GameStats::default();
    let mut player = Player::new();
    assert_eq!(diff.advance(&mut gstats, &mut player), None);
    assert_eq!(gstats.kills, 0);
    assert_eq!(gstats.deaths, 0);
}

#[test]
fn diff_ignores_counters_counting_down() {
    // Counters are monotonic for a session; a lower current value (a
    // restarted session seen by a stale loop) contributes no events.
    let prev = StatsSnapshot::new(5, 3, String::from("delta"));
    let cur = StatsSnapshot::new(2, 1, String::from("delta"));
    let mut diff = StatsDiff::new(&prev, &cur);
    assert!(diff.done());
}

#[test]
fn initial_snapshot_is_all_zero() {
    let s = StatsSnapshot::initial();
    assert_eq!(s.kills, 0);
    assert_eq!(s.deaths, 0);
    assert_eq!(s.level_name, String::new());
}

#[test]
fn diff_from_initial_snapshot_announces_first_level() {
    let prev = StatsSnapshot::initial();
    let cur = StatsSnapshot::new(0, 0, String::from("level one"));
    let mut diff = StatsDiff::new(&prev, &cur);
    let mut gstats = GameStats::default();
    let mut player = Player::new();
    assert_eq!(diff.advance(&mut gstats, &mut player), Some(GameEvent::NewLevel));
    assert_eq!(diff.advance(&mut gstats, &mut player), Some(GameEvent::Kill));
    assert_eq!(diff.advance(&mut gstats, &mut player), None);
    assert_eq!(gstats.kills, 1);
}
