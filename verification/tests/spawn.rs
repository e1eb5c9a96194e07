use arena_shooter::spawn::{
    choose_position, generate_xy_values, spawn_enemies, EnemyCount, EnemySpawnTimer, ENEMY_CAP,
    ENEMY_SPAWN_NANOS, SPAWN_BUFFER, WINDOW_MAX_X, WINDOW_MAX_Y,
};
use arena_shooter::timer::Cooldown;

fn spawn_timer() -> EnemySpawnTimer {
    EnemySpawnTimer(Cooldown::from_nanos(ENEMY_SPAWN_NANOS))
}

#[test]
fn arena_constants() {
    assert_eq!(WINDOW_MAX_X, 640);
    assert_eq!(WINDOW_MAX_Y, 360);
    assert_eq!(SPAWN_BUFFER, 50);
    assert_eq!(ENEMY_CAP, 20);
    assert_eq!(ENEMY_SPAWN_NANOS as f64 / 1e9, 3.0);
}

#[test]
fn the_coin_decides_between_two_draws() {
    assert_eq!(choose_position(Some(120), Some(-300), true), 120);
    assert_eq!(choose_position(Some(120), Some(-300), false), -300);
}

#[test]
fn a_single_draw_is_taken_whatever_the_coin_says() {
    assert_eq!(choose_position(Some(120), None, true), 120);
    assert_eq!(choose_position(Some(120), None, false), 120);
    assert_eq!(choose_position(None, Some(-300), true), -300);
    assert_eq!(choose_position(None, Some(-300), false), -300);
}

#[test]
fn without_a_draw_the_position_is_zero() {
    assert_eq!(choose_position(None, None, true), 0);
    assert_eq!(choose_position(None, None, false), 0);
}

#[test]
fn spawn_at_origin_keeps_the_buffer_and_the_arena() {
    for _ in 0..2000 {
        let (x, y) = generate_xy_values(0, 0);
        assert!((50..640).contains(&x) || (-640..-50).contains(&x), "x = {}", x);
        assert!((50..360).contains(&y) || (-360..-50).contains(&y), "y = {}", y);
        assert!(x.abs() >= 50 && y.abs() >= 50);
    }
}

#[test]
fn spawns_at_origin_vary_and_fall_on_both_sides() {
    let mut right = false;
    let mut left = false;
    let mut above = false;
    let mut below = false;
    let mut distinct_x = std::collections::HashSet::new();
    let mut distinct_y = std::collections::HashSet::new();
    for _ in 0..400 {
        let (x, y) = generate_xy_values(0, 0);
        right |= x >= 50;
        left |= x < -50;
        above |= y >= 50;
        below |= y < -50;
        distinct_x.insert(x);
        distinct_y.insert(y);
    }
    assert!(right && left && above && below);
    assert!(distinct_x.len() > 2 && distinct_y.len() > 2);
}

#[test]
fn player_near_the_upper_edge_leaves_only_the_lower_range() {
    for _ in 0..500 {
        let (x, y) = generate_xy_values(600, 320);
        assert!((-640..550).contains(&x), "x = {}", x);
        assert!((-360..270).contains(&y), "y = {}", y);
    }
}

#[test]
fn player_near_the_lower_edge_leaves_only_the_upper_range() {
    for _ in 0..500 {
        let (x, y) = generate_xy_values(-600, -320);
        assert!((-550..640).contains(&x), "x = {}", x);
        assert!((-270..360).contains(&y), "y = {}", y);
    }
}

#[test]
fn a_range_of_one_value_gives_that_value() {
    for _ in 0..50 {
        let (x, y) = generate_xy_values(-589, -309);
        assert!(x == -640 || (-539..640).contains(&x), "x = {}", x);
        assert!(y == -360 || (-259..360).contains(&y), "y = {}", y);
    }
    for _ in 0..50 {
        let (x, y) = generate_xy_values(590, 310);
        assert!((-640..540).contains(&x), "x = {}", x);
        assert!((-360..260).contains(&y), "y = {}", y);
    }
}

#[test]
fn player_far_outside_still_gets_a_position() {
    let (x, y) = generate_xy_values(i32::MAX, i32::MIN);
    assert!(x >= -640);
    assert!(y < 360);
    let (x, y) = generate_xy_values(i32::MIN, i32::MAX);
    assert!(x < 640);
    assert!(y >= -360);
}

#[test]
fn no_enemy_before_the_cooldown_completes() {
    let mut count = EnemyCount(0);
    let mut timer = spawn_timer();
    let spawned = spawn_enemies(&vec![(0, 0)], &mut count, &mut timer, 2_999_999_999);
    assert!(spawned.is_empty());
    assert_eq!(count, EnemyCount(0));
    assert_eq!(timer.0.elapsed(), 2_999_999_999);
}

#[test]
fn one_enemy_per_player_when_the_cooldown_completes() {
    let mut count = EnemyCount(3);
    let mut timer = spawn_timer();
    assert!(spawn_enemies(&vec![(0, 0), (100, -100)], &mut count, &mut timer, 1_000_000_000)
        .is_empty());
    assert!(spawn_enemies(&vec![(0, 0), (100, -100)], &mut count, &mut timer, 1_000_000_000)
        .is_empty());
    let spawned = spawn_enemies(&vec![(0, 0), (100, -100)], &mut count, &mut timer, 1_000_000_000);
    assert_eq!(spawned.len(), 2);
    assert_eq!(count, EnemyCount(5));
    assert_eq!(timer.0.elapsed(), 0);
    assert!(spawned[0].0.abs() >= 50 && spawned[0].1.abs() >= 50);
    assert!((spawned[1].0 - 100).abs() >= 50 && (spawned[1].1 + 100).abs() >= 50);
}

#[test]
fn no_enemy_once_the_cap_is_reached() {
    let mut count = EnemyCount(20);
    let mut timer = spawn_timer();
    let spawned = spawn_enemies(&vec![(0, 0)], &mut count, &mut timer, 3_000_000_000);
    assert!(spawned.is_empty());
    assert_eq!(count, EnemyCount(20));
    assert_eq!(timer.0.elapsed(), 0);
}

#[test]
fn the_cap_is_tested_once_per_tick() {
    let mut count = EnemyCount(19);
    let mut timer = spawn_timer();
    let spawned = spawn_enemies(&vec![(0, 0), (10, 10), (20, 20)], &mut count, &mut timer, 3_000_000_000);
    assert_eq!(spawned.len(), 3);
    assert_eq!(count, EnemyCount(22));
}

#[test]
fn twenty_spawns_fill_the_cap() {
    let mut count = EnemyCount(0);
    let mut timer = spawn_timer();
    let mut total = 0;
    for _ in 0..30 {
        total += spawn_enemies(&vec![(0, 0)], &mut count, &mut timer, 3_000_000_000).len();
    }
    assert_eq!(total, 20);
    assert_eq!(count, EnemyCount(20));
}

#[test]
fn without_players_nothing_is_spawned_or_counted() {
    let mut count = EnemyCount(0);
    let mut timer = spawn_timer();
    let spawned = spawn_enemies(&Vec::new(), &mut count, &mut timer, 3_000_000_000);
    assert!(spawned.is_empty());
    assert_eq!(count, EnemyCount(0));
}
