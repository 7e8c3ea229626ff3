use asteroids::astroid::Astroid;
use asteroids::bullet::BulletColor;
use asteroids::player::{Player, ANIMATED_INDEX, IDLE_INDEX, MAX_BULLETS, MAX_SPEED};
use asteroids::units::TrigPair;

#[test]
fn accelerate_clamps_at_max_speed() {
    let mut p = Player::new(100000, 100000);
    for _ in 0..8 {
        p.accelerate();
    }
    assert_eq!(p.speed, MAX_SPEED);
    p.accelerate();
    assert_eq!(p.speed, MAX_SPEED);
    assert!(p.speed >= 0 && p.speed <= MAX_SPEED);
}

#[test]
fn decelerate_floors_at_zero() {
    let mut p = Player::new(100000, 100000);
    p.accelerate();
    assert_eq!(p.speed, 250);
    p.decelerate();
    assert_eq!(p.speed, 0);
    p.decelerate();
    assert_eq!(p.speed, 0);
}

#[test]
fn turn_left_wraps_below_zero() {
    let mut p = Player::new(100000, 100000);
    p.turn_left();
    assert_eq!(p.angle, 15000);
    p.turn_left();
    assert_eq!(p.angle, 14000);
}

#[test]
fn turn_right_wraps_at_full_turn() {
    let mut p = Player::new(100000, 100000);
    for _ in 0..15 {
        p.turn_right();
    }
    assert_eq!(p.angle, 15000);
    p.turn_right();
    assert_eq!(p.angle, 0);
    assert!(p.angle >= 0 && p.angle < 16000);
}

#[test]
fn animation_style_tracks_speed() {
    let mut p = Player::new(100000, 100000);
    assert_eq!(p.get_animation_style(), IDLE_INDEX);
    p.accelerate();
    assert_eq!(p.get_animation_style(), ANIMATED_INDEX);
}

#[test]
fn movement_wraps_exactly_at_max_x() {
    let mut p = Player::new(1278000, 360000);
    for _ in 0..8 {
        p.accelerate();
    }
    assert_eq!(p.speed, 2000);
    p.process_movement(TrigPair { sin: 1000, cos: 0 });
    assert_eq!(p.x, 0);
    assert_eq!(p.y, 360000);
}

#[test]
fn movement_wraps_exactly_at_max_y() {
    let mut p = Player { x: 100000, y: 718000, angle: 8000, speed: 2000, bullets: vec![] };
    p.process_movement(TrigPair { sin: 0, cos: -1000 });
    assert_eq!(p.y, 0);
    assert_eq!(p.x, 100000);
}

#[test]
fn movement_wraps_below_pad() {
    let mut p = Player { x: 100, y: -31500, angle: 0, speed: 2000, bullets: vec![] };
    p.process_movement(TrigPair { sin: 0, cos: 1000 });
    assert_eq!(p.y, 718500);
    assert_eq!(p.x, 100);
}

#[test]
fn movement_step_truncates_toward_zero() {
    let mut p = Player { x: 100000, y: 100000, angle: 1000, speed: 250, bullets: vec![] };
    p.process_movement(TrigPair { sin: 707, cos: 707 });
    assert_eq!(p.x, 100176);
    assert_eq!(p.y, 100000 - 176);
}

#[test]
fn shoot_caps_bullets_and_marks_last_red() {
    let mut p = Player::new(100000, 200000);
    p.turn_right();
    p.shoot();
    p.shoot();
    p.shoot();
    p.shoot();
    assert_eq!(p.bullets.len(), MAX_BULLETS);
    assert_eq!(p.bullets[0].color, BulletColor::White);
    assert_eq!(p.bullets[1].color, BulletColor::White);
    assert_eq!(p.bullets[2].color, BulletColor::Red);
    assert_eq!(p.bullets[0].x, 116000);
    assert_eq!(p.bullets[0].y, 216000);
    assert_eq!(p.bullets[0].angle, 1000);
}

#[test]
fn is_hit_detects_overlap() {
    let p = Player::new(100000, 200000);
    let on_ship = Astroid { x: 116000, y: 216000, angle: 0, size: 1 };
    let near_ship = Astroid { x: 116000 + 5000 + 4000 - 1, y: 216000, angle: 0, size: 1 };
    let far = Astroid { x: 500000, y: 500000, angle: 0, size: 5 };
    assert!(p.is_hit(&vec![on_ship]));
    assert!(p.is_hit(&vec![far, near_ship]));
    assert!(!p.is_hit(&vec![far]));
    assert!(!p.is_hit(&vec![]));
}

#[test]
fn move_bullets_advances_each_along_its_heading() {
    let mut p = Player::new(100000, 200000);
    p.shoot();
    p.turn_right();
    p.turn_right();
    p.turn_right();
    p.turn_right();
    p.shoot();
    let trig = vec![TrigPair { sin: 0, cos: 1000 }, TrigPair { sin: 1000, cos: 0 }];
    p.move_bullets(&trig);
    assert_eq!(p.bullets.len(), 2);
    assert_eq!(p.bullets[0].x, 116000);
    assert_eq!(p.bullets[0].y, 216000 - 10000);
    assert_eq!(p.bullets[1].x, 116000 + 10000);
    assert_eq!(p.bullets[1].y, 216000);
}
