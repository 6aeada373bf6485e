use doof_bot::api::Direction;
use doof_bot::game::map::GameMap;
use doof_bot::game::units::{OptPos, RelPos};
use doof_bot::player::Player;

#[test]
fn is_pos_safe() {
    let mut pl = Player::new();
    let map = GameMap::default_level();

    // Since the start, the player has moved 4 blocks to the right and 2 to
    // the left.
    pl.delta_pos = RelPos(4, -2);

    assert!(pl.is_pos_safe(RelPos(-2, 1), &map)); // Safe
    assert!(!pl.is_pos_safe(RelPos(2, 1), &map)); // Not safe in X (out of box)
    assert!(!pl.is_pos_safe(RelPos(-2, -1), &map)); // Not safe in Y (out of box)

    pl.pos = OptPos(Some(5), Some(5));

    assert!(pl.is_pos_safe(RelPos(2, 2), &map)); // Safe
    assert!(!pl.is_pos_safe(RelPos(-12, 2), &map)); // Not safe in X (out of map)
    assert!(!pl.is_pos_safe(RelPos(2, -12), &map)); // Not safe in Y (out of map)
    assert!(!pl.is_pos_safe(RelPos(12, 2), &map)); // Not safe in X (out of map)
    assert!(!pl.is_pos_safe(RelPos(2, 12), &map)); // Not safe in Y (out of map)
}

#[test]
fn is_pos_safe_zero_offset_always_safe() {
    let pl = Player::new();
    let map = GameMap::default_level();
    assert!(pl.is_pos_safe(RelPos(0, 0), &map));
}

#[test]
fn is_pos_safe_is_pure() {
    let mut pl = Player::new();
    pl.pos = OptPos(Some(7), None);
    pl.delta_pos = RelPos(3, -1);
    pl.set_dir(Some(Direction::East));
    let map = GameMap::default_level();
    let before_pos = pl.pos;
    let before_delta = pl.delta_pos;
    let before_dir = pl.get_dir();
    let first = pl.is_pos_safe(RelPos(1, -2), &map);
    let second = pl.is_pos_safe(RelPos(1, -2), &map);
    assert_eq!(first, second);
    assert_eq!(pl.pos, before_pos);
    assert_eq!(pl.delta_pos, before_delta);
    assert_eq!(pl.get_dir(), before_dir);
}

#[test]
fn new_player_is_fully_unknown() {
    let pl = Player::new();
    assert_eq!(pl.pos, OptPos(None, None));
    assert_eq!(pl.delta_pos, RelPos(0, 0));
    assert_eq!(pl.get_dir(), None);
}

#[test]
fn reset_pos_clears_position_and_displacement() {
    let mut pl = Player::new();
    pl.pos = OptPos(Some(3), Some(9));
    pl.delta_pos = RelPos(-2, 5);
    pl.set_dir(Some(Direction::West));
    pl.reset_pos();
    assert_eq!(pl.pos, OptPos(None, None));
    assert_eq!(pl.delta_pos, RelPos(0, 0));
    // The intended direction survives a position reset.
    assert_eq!(pl.get_dir(), Some(Direction::West));
}

#[test]
fn set_dir_replaces_and_get_dir_reads() {
    let mut pl = Player::new();
    pl.set_dir(Some(Direction::North));
    assert_eq!(pl.get_dir(), Some(Direction::North));
    pl.set_dir(Some(Direction::South));
    assert_eq!(pl.get_dir(), Some(Direction::South));
    pl.set_dir(None);
    assert_eq!(pl.get_dir(), None);
}

#[test]
fn reg_move_tracks_displacement_and_known_axis() {
    let mut pl = Player::new();
    pl.reg_move(Direction::North);
    pl.reg_move(Direction::North);
    pl.reg_move(Direction::East);
    pl.reg_move(Direction::South);
    assert_eq!(pl.delta_pos, RelPos(1, 1));
    // No axis is known yet, so the position stays unknown.
    assert_eq!(pl.pos, OptPos(None, None));

    pl.pos = OptPos(Some(4), Some(4));
    pl.reg_move(Direction::West);
    assert_eq!(pl.pos, OptPos(Some(3), Some(4)));
    pl.reg_move(Direction::North);
    assert_eq!(pl.pos, OptPos(Some(3), Some(5)));
    assert_eq!(pl.delta_pos, RelPos(0, 2));
}

#[test]
fn map_wall_pins_the_travelled_axis() {
    let map = GameMap::default_level();
    let mut pl = Player::new();
    pl.map_wall(Direction::North, &map);
    assert_eq!(pl.pos, OptPos(None, Some(14)));
    pl.map_wall(Direction::East, &map);
    assert_eq!(pl.pos, OptPos(Some(14), Some(14)));
    pl.map_wall(Direction::South, &map);
    assert_eq!(pl.pos, OptPos(Some(14), Some(0)));
    pl.map_wall(Direction::West, &map);
    assert_eq!(pl.pos, OptPos(Some(0), Some(0)));
}

#[test]
fn known_axis_stays_in_bounds_across_bumps_and_moves() {
    let map = GameMap::default_level();
    let mut pl = Player::new();
    pl.map_wall(Direction::North, &map);
    assert_eq!(pl.pos.1, Some(14));
    for _ in 0..14 {
        pl.reg_move(Direction::South);
        let y = pl.pos.1.unwrap();
        assert!((0..15).contains(&y));
    }
    assert_eq!(pl.pos.1, Some(0));
}
