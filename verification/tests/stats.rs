use doof_bot::game::map::GameMap;
use doof_bot::game::{Events, GameStats};

#[test]
fn kills_per_min_none_before_any_stamp() {
    let gstats = GameStats::default();
    assert!(gstats.kills_per_min(5_000).is_none());
    assert!(gstats.deaths_per_min(5_000).is_none());
    assert!(gstats.last_stamp_elapsed(5_000).is_none());
    assert!(gstats.last_kills().is_none());
    assert!(gstats.last_deaths().is_none());
}

#[test]
fn kills_per_min_after_one_stamp_and_two_minutes() {
    let mut gstats = GameStats::default();
    gstats.create_stamp(1_000);
    gstats.kills = 4;
    // 120 seconds after the first stamp, with 4 kills on the counter: the
    // running average is 4 kills / 2 minutes = 2 per minute.
    let (num, den) = gstats.kills_per_min(121_000).unwrap();
    assert_eq!((num, den), (240_000, 120_000));
    assert_eq!(num as f64 / den as f64, 2.0);
}

#[test]
fn rates_use_the_first_stamp_not_the_most_recent() {
    let mut gstats = GameStats::default();
    gstats.create_stamp(0);
    gstats.kills = 2;
    gstats.deaths = 6;
    gstats.create_stamp(30_000);
    let (knum, kden) = gstats.kills_per_min(60_000).unwrap();
    assert_eq!((knum, kden), (120_000, 60_000));
    let (dnum, dden) = gstats.deaths_per_min(60_000).unwrap();
    assert_eq!((dnum, dden), (360_000, 60_000));
    // Elapsed time, in contrast, is measured from the most recent stamp.
    assert_eq!(gstats.last_stamp_elapsed(60_000), Some(30_000));
}

#[test]
fn last_kills_and_deaths_count_since_most_recent_stamp() {
    let mut gstats = GameStats::default();
    gstats.kills = 3;
    gstats.deaths = 1;
    gstats.create_stamp(10_000);
    gstats.kills = 8;
    gstats.deaths = 2;
    assert_eq!(gstats.last_kills(), Some(5));
    assert_eq!(gstats.last_deaths(), Some(1));
}

#[test]
fn create_stamp_appends_current_counters() {
    let mut gstats = GameStats::default();
    gstats.kills = 7;
    gstats.deaths = 3;
    gstats.create_stamp(42_000);
    assert_eq!(gstats.stamps.len(), 1);
    assert_eq!(gstats.stamps[0].kills, 7);
    assert_eq!(gstats.stamps[0].deaths, 3);
    assert_eq!(gstats.stamps[0].at_ms, 42_000);
    gstats.kills = 9;
    gstats.create_stamp(50_000);
    assert_eq!(gstats.stamps.len(), 2);
    assert_eq!(gstats.stamps[0].kills, 7);
    assert_eq!(gstats.stamps[1].kills, 9);
    assert_eq!(gstats.stamps[1].at_ms, 50_000);
}

#[test]
fn clone_nostamp_keeps_only_kills_and_deaths() {
    let mut gstats = GameStats::default();
    gstats.kills = 7;
    gstats.deaths = 3;
    gstats.hits = 40;
    gstats.criticals = 5;
    gstats.shots = 60;
    gstats.create_stamp(1_000);
    let bare = gstats.clone_nostamp();
    assert_eq!(bare.kills, 7);
    assert_eq!(bare.deaths, 3);
    assert_eq!(bare.hits, 0);
    assert_eq!(bare.criticals, 0);
    assert_eq!(bare.shots, 0);
    assert!(bare.stamps.is_empty());
}

#[test]
fn default_stats_are_zero_on_the_default_level() {
    let gstats = GameStats::default();
    assert_eq!(gstats.kills, 0);
    assert_eq!(gstats.deaths, 0);
    assert_eq!(gstats.hits, 0);
    assert_eq!(gstats.criticals, 0);
    assert_eq!(gstats.shots, 0);
    assert!(gstats.stamps.is_empty());
    assert_eq!(gstats.map.size.0, 15);
    assert_eq!(gstats.map.kills_goal, Some(20));
}

#[test]
fn map_catalog_presets() {
    let d = GameMap::default_level();
    assert_eq!((d.size.0, d.size.1), (15, 15));
    assert_eq!(d.kills_goal, Some(20));
    assert_eq!(d.max_time, 900);

    let b = GameMap::bigger_map_level();
    assert_eq!((b.size.0, b.size.1), (25, 25));
    assert_eq!(b.kills_goal, None);
    assert_eq!(b.max_time, 900);

    let m = GameMap::more_bots_level();
    assert_eq!((m.size.0, m.size.1), (25, 25));
    assert_eq!(m.kills_goal, Some(10));

    let n = GameMap::new_bots_level();
    assert_eq!((n.size.0, n.size.1), (15, 15));
    assert_eq!(n.kills_goal, None);

    let def = GameMap::default();
    assert_eq!((def.size.0, def.size.1), (15, 15));
    assert_eq!(def.kills_goal, Some(20));
}

#[test]
fn registering_a_callback_replaces_the_previous_one() {
    let mut events: Events<u32> = Events::default();
    assert_eq!(events.on_kill, None);
    assert_eq!(events.on_finish, None);

    events.set_on_kill(Some(1));
    events.set_on_kill(Some(2));
    // Exactly the second callback is active; nothing accumulated.
    assert_eq!(events.on_kill, Some(2));

    events.set_on_death(Some(3));
    events.set_on_death(Some(4));
    assert_eq!(events.on_death, Some(4));

    events.set_on_new_level(Some(5));
    events.set_on_new_level(Some(6));
    assert_eq!(events.on_new_level, Some(6));

    events.set_on_start(Some(7));
    events.set_on_start(Some(8));
    assert_eq!(events.on_start, Some(8));

    events.set_on_finish(Some(9));
    events.set_on_finish(Some(10));
    assert_eq!(events.on_finish, Some(10));

    // The other slots were never touched by the kill registrations.
    assert_eq!(events.on_kill, Some(2));
}

#[test]
fn unregistering_a_callback_clears_the_slot() {
    let mut events: Events<u32> = Events::default();
    events.set_on_kill(Some(1));
    events.set_on_kill(None);
    assert_eq!(events.on_kill, None);
}
