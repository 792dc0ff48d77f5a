use balls_and_walls::interact::{
    random_radius, release_velocity, spawn_radius, to_world, wall_from_corners, InputState,
    PlaceMode, SpawnAction,
};
use balls_and_walls::rat::Rat;
use balls_and_walls::Vec2;

fn radius_in_range(r: &Rat) -> bool {
    r.den > 0 && 5 * r.den <= r.num && r.num < 20 * r.den
}

#[test]
fn release_velocity_doubles_drag() {
    let press = Vec2 { x: 1, y: 2 };
    let release = Vec2 { x: 4, y: 6 };
    let v = release_velocity(press, release);
    assert_eq!(v.x, 6);
    assert_eq!(v.y, 8);
}

#[test]
fn release_velocity_backwards_drag() {
    let press = Vec2 { x: 4, y: 6 };
    let release = Vec2 { x: 1, y: 2 };
    let v = release_velocity(press, release);
    assert_eq!(v.x, -6);
    assert_eq!(v.y, -8);
}

#[test]
fn wall_from_corners_forward_drag() {
    let w = wall_from_corners(4, 6, 10, 20);
    assert_eq!(w.width, 6);
    assert_eq!(w.height, 14);
    assert_eq!(w.center_x.num, 14);
    assert_eq!(w.center_x.den, 2);
    assert_eq!(w.center_y.num, 26);
    assert_eq!(w.center_y.den, 2);
}

#[test]
fn wall_from_corners_reversed_drag_nonnegative() {
    let w = wall_from_corners(10, 20, 4, 6);
    assert!(w.width >= 0);
    assert!(w.height >= 0);
    assert_eq!(w.width, 6);
    assert_eq!(w.height, 14);
    assert_eq!(w.center_x.num, 14);
    assert_eq!(w.center_y.num, 26);
}

#[test]
fn wall_from_mixed_corners_nonnegative() {
    let w = wall_from_corners(-3, 9, 5, -11);
    assert!(w.width >= 0);
    assert!(w.height >= 0);
    assert_eq!(w.width, 8);
    assert_eq!(w.height, 20);
    assert_eq!(w.center_x.num, 2);
    assert_eq!(w.center_y.num, -2);
}

#[test]
fn spawn_radius_smallest_draw_is_five() {
    let r = spawn_radius(0);
    assert!(radius_in_range(&r));
    assert_eq!(r.num, 5 * r.den);
}

#[test]
fn spawn_radius_largest_draw_stays_below_twenty() {
    let r = spawn_radius(u32::MAX);
    assert!(radius_in_range(&r));
    assert_eq!(r.num, 5 * 4294967296 + 15 * (u32::MAX as i128));
    assert_eq!(r.den, 4294967296);
}

#[test]
fn random_radius_in_range() {
    for _ in 0..32 {
        let r = random_radius();
        assert!(radius_in_range(&r));
    }
}

#[test]
fn to_world_flips_y() {
    let p = to_world(900, 10, 20);
    assert_eq!(p.x, 10);
    assert_eq!(p.y, 880);
}

#[test]
fn drag_in_ball_mode_spawns_ball() {
    let mut s = InputState::new();
    assert!(matches!(s.mode, PlaceMode::Ball));
    s.left_press(Vec2 { x: 100, y: 100 }, 0);
    let a = s.left_release(Vec2 { x: 103, y: 104 });
    match a {
        SpawnAction::Ball(b) => {
            assert_eq!(b.pos.x, 100);
            assert_eq!(b.pos.y, 100);
            assert_eq!(b.vel.x, 6);
            assert_eq!(b.vel.y, 8);
            assert_eq!(b.radius.num, 5 * b.radius.den);
        }
        _ => panic!("expected a ball"),
    }
    assert!(!s.left_down);
}

#[test]
fn drag_in_wall_mode_spawns_wall() {
    let mut s = InputState::new();
    s.set_wall_mode();
    s.left_press(Vec2 { x: 10, y: 20 }, 0);
    let a = s.left_release(Vec2 { x: 4, y: 6 });
    match a {
        SpawnAction::Wall(w) => {
            assert_eq!(w.width, 6);
            assert_eq!(w.height, 14);
            assert_eq!(w.center_x.num, 14);
            assert_eq!(w.center_y.num, 26);
        }
        _ => panic!("expected a wall"),
    }
}

#[test]
fn second_press_while_held_is_ignored() {
    let mut s = InputState::new();
    s.left_press(Vec2 { x: 0, y: 0 }, 0);
    s.left_press(Vec2 { x: 50, y: 50 }, u32::MAX);
    let a = s.left_release(Vec2 { x: 3, y: 4 });
    match a {
        SpawnAction::Ball(b) => {
            assert_eq!(b.pos.x, 0);
            assert_eq!(b.pos.y, 0);
            assert_eq!(b.vel.x, 6);
            assert_eq!(b.vel.y, 8);
        }
        _ => panic!("expected a ball"),
    }
}

#[test]
fn release_without_press_does_nothing() {
    let mut s = InputState::new();
    let a = s.left_release(Vec2 { x: 3, y: 4 });
    assert!(matches!(a, SpawnAction::Nothing));
    let a = s.right_release(Vec2 { x: 3, y: 4 });
    assert!(matches!(a, SpawnAction::Nothing));
}

#[test]
fn right_button_always_places_wall() {
    let mut s = InputState::new();
    assert!(matches!(s.mode, PlaceMode::Ball));
    s.right_press(Vec2 { x: 1, y: 1 });
    let a = s.right_release(Vec2 { x: 5, y: 9 });
    match a {
        SpawnAction::Wall(w) => {
            assert_eq!(w.width, 4);
            assert_eq!(w.height, 8);
        }
        _ => panic!("expected a wall"),
    }
}

#[test]
fn mode_keys_toggle() {
    let mut s = InputState::new();
    s.set_wall_mode();
    assert!(matches!(s.mode, PlaceMode::Wall));
    s.set_ball_mode();
    assert!(matches!(s.mode, PlaceMode::Ball));
}

#[test]
fn random_press_assigns_radius_in_range() {
    let mut s = InputState::new();
    s.left_press_random(Vec2 { x: 7, y: 8 });
    assert!(s.left_down);
    assert_eq!(s.anchor.x, 7);
    assert_eq!(s.anchor.y, 8);
    assert!(radius_in_range(&s.radius));
}
