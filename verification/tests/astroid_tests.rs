use asteroids::astroid::{Astroid, Astroids, PHYSICS_TICK_RATE, STARTING_SPAWN_RATE};
use asteroids::units::{TrigPair, MAX_X, MAX_Y};

#[test]
fn spawn_sits_on_an_edge_heading_inward() {
    for _ in 0..200 {
        let a = Astroid::new();
        assert!(a.size >= 1 && a.size <= 5);
        assert!(a.angle >= 0 && a.angle < 16000);
        let on_left = a.x == 0
            && a.y >= 50000
            && a.y < MAX_Y - 50000
            && a.angle >= 500
            && a.angle < 8000 - 500;
        let on_right = a.x == MAX_X
            && a.y >= 50000
            && a.y < MAX_Y - 50000
            && a.angle >= 8000 + 500
            && a.angle < 16000 - 500;
        let on_top = a.y == 0
            && a.x >= 50000
            && a.x < MAX_X - 50000
            && a.angle >= 4000 + 500
            && a.angle < 12000 - 500;
        let on_bottom = a.y == MAX_Y
            && a.x >= 50000
            && a.x < MAX_X - 50000
            && (a.angle >= 12000 + 500 || a.angle < 4000 - 500);
        assert!(on_left || on_right || on_top || on_bottom);
    }
}

#[test]
fn astroid_movement_steps_along_heading() {
    let mut a = Astroid { x: 100000, y: 100000, angle: 4000, size: 3 };
    a.process_movement(TrigPair { sin: 1000, cos: 0 });
    assert_eq!(a.x, 101000);
    assert_eq!(a.y, 100000);
    assert_eq!(a.size, 3);
    a.process_movement(TrigPair { sin: 0, cos: -1000 });
    assert_eq!(a.y, 101000);
}

#[test]
fn spawner_counts_up_without_spawning() {
    let mut field = Astroids::new();
    assert_eq!(field.spawn_rate, STARTING_SPAWN_RATE);
    assert_eq!(field.spawn_counter, 0);
    field.spawn_step();
    assert_eq!(field.spawn_counter, 1);
    assert_eq!(field.astroids.len(), 0);
    assert_eq!(field.spawn_rate, STARTING_SPAWN_RATE);
}

#[test]
fn spawner_spawns_resets_and_decays_to_floor() {
    let mut field = Astroids { astroids: vec![], spawn_rate: 150, spawn_counter: 150 };
    field.spawn_step();
    assert_eq!(field.astroids.len(), 1);
    assert_eq!(field.spawn_counter, 0);
    assert_eq!(field.spawn_rate, PHYSICS_TICK_RATE);
}

#[test]
fn spawner_rate_never_leaves_its_band() {
    let mut field = Astroids::new();
    for _ in 0..25000 {
        field.spawn_step();
        assert!(field.spawn_rate >= PHYSICS_TICK_RATE);
        assert!(field.spawn_rate <= STARTING_SPAWN_RATE);
        assert!(field.spawn_counter <= field.spawn_rate);
    }
    assert_eq!(field.spawn_rate, PHYSICS_TICK_RATE);
}

#[test]
fn despawn_removes_exactly_the_far_ones() {
    let inside_low = Astroid { x: -50000, y: 100000, angle: 0, size: 2 };
    let outside_low = Astroid { x: -50001, y: 100000, angle: 0, size: 2 };
    let inside_high = Astroid { x: 200000, y: MAX_Y + 50000, angle: 0, size: 4 };
    let outside_high = Astroid { x: 200000, y: MAX_Y + 50001, angle: 0, size: 4 };
    let mut field = Astroids {
        astroids: vec![outside_low, inside_low, outside_high, inside_high],
        spawn_rate: 300,
        spawn_counter: 7,
    };
    field.despawn_offscreen();
    assert_eq!(field.astroids.len(), 2);
    assert_eq!(field.astroids[0].x, -50000);
    assert_eq!(field.astroids[1].x, 200000);
    assert_eq!(field.spawn_rate, 300);
    assert_eq!(field.spawn_counter, 7);
}

#[test]
fn move_all_advances_every_astroid() {
    let a0 = Astroid { x: 100000, y: 100000, angle: 4000, size: 1 };
    let a1 = Astroid { x: 200000, y: 300000, angle: 12000, size: 5 };
    let mut field = Astroids { astroids: vec![a0, a1], spawn_rate: 700, spawn_counter: 0 };
    let trig = vec![TrigPair { sin: 1000, cos: 0 }, TrigPair { sin: -1000, cos: 0 }];
    field.move_all(&trig);
    assert_eq!(field.astroids.len(), 2);
    assert_eq!(field.astroids[0].x, 101000);
    assert_eq!(field.astroids[0].y, 100000);
    assert_eq!(field.astroids[1].x, 199000);
    assert_eq!(field.astroids[1].y, 300000);
}
