use asteroids::astroid::{Astroid, Astroids};
use asteroids::bullet::{Bullet, BulletColor};
use asteroids::player::Player;
use asteroids::units::{is_on_screen, TrigPair, MAX_X};
use asteroids::world::{physics_tick, resolve_bullet_hits};

fn still_table() -> Vec<TrigPair> {
    (0..16000).map(|_| TrigPair { sin: 0, cos: 0 }).collect()
}

fn field_with(astroids: Vec<Astroid>) -> Astroids {
    Astroids { astroids, spawn_rate: 500, spawn_counter: 3 }
}

fn player_with(bullets: Vec<Bullet>) -> Player {
    Player { x: 600000, y: 300000, angle: 0, speed: 0, bullets }
}

#[test]
fn bullet_shrinks_astroid_and_is_spent() {
    let b = Bullet { x: 100000, y: 100000, angle: 0, color: BulletColor::White };
    let a = Astroid { x: 100000, y: 100000, angle: 0, size: 2 };
    let mut player = player_with(vec![b]);
    let mut field = field_with(vec![a]);
    let mut score: u64 = 0;
    resolve_bullet_hits(&mut player, &mut field, &mut score);
    assert_eq!(player.bullets.len(), 0);
    assert_eq!(field.astroids.len(), 1);
    assert_eq!(field.astroids[0].size, 1);
    assert_eq!(score, 0);
}

#[test]
fn final_hit_removes_astroid_and_scores_one() {
    let b = Bullet { x: 100000, y: 100000, angle: 0, color: BulletColor::White };
    let a = Astroid { x: 100000, y: 100000, angle: 0, size: 1 };
    let mut player = player_with(vec![b]);
    let mut field = field_with(vec![a]);
    let mut score: u64 = 10;
    resolve_bullet_hits(&mut player, &mut field, &mut score);
    assert_eq!(player.bullets.len(), 0);
    assert_eq!(field.astroids.len(), 0);
    assert_eq!(score, 11);
}

#[test]
fn offscreen_bullet_is_removed_without_hitting() {
    let b = Bullet { x: MAX_X + 10001, y: 100000, angle: 0, color: BulletColor::White };
    let a = Astroid { x: MAX_X + 10001, y: 100000, angle: 0, size: 1 };
    let mut player = player_with(vec![b]);
    let mut field = field_with(vec![a]);
    let mut score: u64 = 0;
    resolve_bullet_hits(&mut player, &mut field, &mut score);
    assert_eq!(player.bullets.len(), 0);
    assert_eq!(field.astroids.len(), 1);
    assert_eq!(field.astroids[0].size, 1);
    assert_eq!(score, 0);
}

#[test]
fn bullet_on_margin_survives_a_miss() {
    let b = Bullet { x: MAX_X + 10000, y: 100000, angle: 0, color: BulletColor::Red };
    let mut player = player_with(vec![b]);
    let mut field = field_with(vec![]);
    let mut score: u64 = 0;
    resolve_bullet_hits(&mut player, &mut field, &mut score);
    assert_eq!(player.bullets.len(), 1);
    assert_eq!(player.bullets[0].x, MAX_X + 10000);
    assert_eq!(score, 0);
}

#[test]
fn bullet_hits_the_first_overlapping_astroid() {
    let b = Bullet { x: 100000, y: 100000, angle: 0, color: BulletColor::White };
    let far = Astroid { x: 900000, y: 100000, angle: 0, size: 3 };
    let first_near = Astroid { x: 101000, y: 100000, angle: 0, size: 2 };
    let second_near = Astroid { x: 99000, y: 100000, angle: 0, size: 2 };
    let mut player = player_with(vec![b]);
    let mut field = field_with(vec![far, first_near, second_near]);
    let mut score: u64 = 0;
    resolve_bullet_hits(&mut player, &mut field, &mut score);
    assert_eq!(field.astroids.len(), 3);
    assert_eq!(field.astroids[0].size, 3);
    assert_eq!(field.astroids[1].size, 1);
    assert_eq!(field.astroids[2].size, 2);
}

#[test]
fn two_bullets_wear_one_astroid_down() {
    let b0 = Bullet { x: 100000, y: 100000, angle: 0, color: BulletColor::White };
    let b1 = Bullet { x: 100500, y: 100500, angle: 0, color: BulletColor::White };
    let a = Astroid { x: 100000, y: 100000, angle: 0, size: 2 };
    let mut player = player_with(vec![b0, b1]);
    let mut field = field_with(vec![a]);
    let mut score: u64 = 0;
    resolve_bullet_hits(&mut player, &mut field, &mut score);
    assert_eq!(player.bullets.len(), 0);
    assert_eq!(field.astroids.len(), 0);
    assert_eq!(score, 1);
}

#[test]
fn intersects_reports_first_index_only() {
    let b = Bullet { x: 100000, y: 100000, angle: 0, color: BulletColor::White };
    let far = Astroid { x: 900000, y: 100000, angle: 0, size: 3 };
    let near = Astroid { x: 101000, y: 100000, angle: 0, size: 2 };
    assert_eq!(b.intersects_astroid_at_index(&vec![far, near]), Some(1));
    assert_eq!(b.intersects_astroid_at_index(&vec![near, far]), Some(0));
    assert_eq!(b.intersects_astroid_at_index(&vec![far]), None);
    assert_eq!(b.intersects_astroid_at_index(&vec![]), None);
}

#[test]
fn hit_box_respects_accuracy_leeway() {
    let a = Astroid { x: 100000, y: 100000, angle: 0, size: 2 };
    let just_inside = Bullet {
        x: 100000 + 2 * 5000 + 3000 - 1,
        y: 100000,
        angle: 0,
        color: BulletColor::White,
    };
    let just_outside = Bullet {
        x: 100000 + 2 * 5000 + 3000,
        y: 100000,
        angle: 0,
        color: BulletColor::White,
    };
    assert_eq!(just_inside.intersects_astroid_at_index(&vec![a]), Some(0));
    assert_eq!(just_outside.intersects_astroid_at_index(&vec![a]), None);
}

#[test]
fn on_screen_margins_are_exact() {
    assert!(is_on_screen(-10000, 0));
    assert!(!is_on_screen(-10001, 0));
    assert!(is_on_screen(MAX_X + 10000, 0));
    assert!(!is_on_screen(MAX_X + 10001, 0));
    assert!(is_on_screen(0, 730000));
    assert!(!is_on_screen(0, 730001));
}

#[test]
fn physics_tick_scores_counts_and_despawns() {
    let table = still_table();
    let b = Bullet { x: 100000, y: 100000, angle: 0, color: BulletColor::White };
    let a = Astroid { x: 100000, y: 100000, angle: 0, size: 1 };
    let stray = Astroid { x: -60000, y: 100000, angle: 0, size: 3 };
    let mut player = player_with(vec![b]);
    let mut field = field_with(vec![a, stray]);
    let mut score: u64 = 0;
    let hit = physics_tick(&mut player, &mut field, &mut score, &table);
    assert!(!hit);
    assert_eq!(score, 1);
    assert_eq!(player.bullets.len(), 0);
    assert_eq!(field.astroids.len(), 0);
    assert_eq!(field.spawn_counter, 4);
    assert_eq!(field.spawn_rate, 500);
    assert_eq!(player.x, 600000);
    assert_eq!(player.y, 300000);
}

#[test]
fn physics_tick_moves_ship_and_reports_collision() {
    let mut table = still_table();
    table[4000] = TrigPair { sin: 1000, cos: 0 };
    let mut player = Player { x: 100000, y: 200000, angle: 4000, speed: 2000, bullets: vec![] };
    let a = Astroid { x: 118000, y: 216000, angle: 0, size: 2 };
    let mut field = field_with(vec![a]);
    let mut score: u64 = 0;
    let hit = physics_tick(&mut player, &mut field, &mut score, &table);
    assert_eq!(player.x, 102000);
    assert_eq!(player.y, 200000);
    assert!(hit);
    assert_eq!(score, 0);
    assert_eq!(field.astroids.len(), 1);
}

#[test]
fn physics_tick_spawns_when_the_counter_passes_the_rate() {
    let table = still_table();
    let mut player = player_with(vec![]);
    let mut field = Astroids { astroids: vec![], spawn_rate: 500, spawn_counter: 500 };
    let mut score: u64 = 7;
    let hit = physics_tick(&mut player, &mut field, &mut score, &table);
    assert!(!hit);
    assert_eq!(score, 7);
    assert_eq!(field.astroids.len(), 1);
    assert_eq!(field.spawn_counter, 0);
    assert_eq!(field.spawn_rate, 486);
    let fresh = field.astroids[0];
    assert!(fresh.size >= 1 && fresh.size <= 5);
    assert!(fresh.angle >= 0 && fresh.angle < 16000);
}
