use bracket_lib::random::RandomNumberGenerator;
use flappy::obstacle::Obstacle;
use flappy::player::Player;
use flappy::state::{GameKey, GameMode, State};
use flappy::{FRAME_DURATION_MS, SCREEN_HEIGHT, SCREEN_WIDTH};

fn rng() -> RandomNumberGenerator {
    RandomNumberGenerator::seeded(42)
}

#[test]
fn gravity_velocity_follows_min_formula() {
    // After n ticks from rest, the speed in tenths is min(20, 2 * n).
    let mut p = Player::new(5, 25);
    let mut prev_y = p.y;
    for n in 1..=30u32 {
        p.gravity_and_move();
        let expected = std::cmp::min(20, 2 * n as i32);
        assert_eq!(p.velocity, expected, "after {} ticks", n);
        // The row never decreases and never goes negative.
        assert!(p.y >= prev_y);
        assert!(p.y >= 0);
        prev_y = p.y;
    }
}

#[test]
fn gravity_moves_one_column_per_tick() {
    let mut p = Player::new(5, 25);
    for n in 1..=10i32 {
        p.gravity_and_move();
        assert_eq!(p.x, 5 + n);
    }
}

#[test]
fn gravity_trajectory_first_five_ticks() {
    // Speeds 2,4,6,8,10 tenths give whole-row steps 0,0,0,0,1.
    let mut p = Player::new(5, 25);
    for _ in 0..4 {
        p.gravity_and_move();
        assert_eq!(p.y, 25);
    }
    p.gravity_and_move();
    assert_eq!(p.y, 26);
    assert_eq!(p.velocity, 10);
}

#[test]
fn row_is_clamped_at_top() {
    let mut p = Player::new(0, 0);
    p.flap();
    p.gravity_and_move();
    // Speed -18 tenths would move one row up from row 0: clamped to 0.
    assert_eq!(p.y, 0);
}

#[test]
fn flap_forces_impulse_regardless_of_prior_velocity() {
    let mut p = Player::new(5, 25);
    p.flap();
    assert_eq!(p.velocity, -20);
    for _ in 0..25 {
        p.gravity_and_move();
    }
    assert_eq!(p.velocity, 20);
    p.flap();
    assert_eq!(p.velocity, -20);
    p.velocity = 7;
    p.flap();
    assert_eq!(p.velocity, -20);
}

#[test]
fn no_hit_when_columns_differ() {
    let o = Obstacle { x: 5, gap_y: 20, size: 6 };
    for y in [-5, 0, 16, 17, 20, 23, 24, 100] {
        let p = Player { x: 4, y, velocity: 0 };
        assert!(!o.hit_obstacle(&p), "row {}", y);
        let p = Player { x: 6, y, velocity: 0 };
        assert!(!o.hit_obstacle(&p), "row {}", y);
    }
}

#[test]
fn hit_exactly_outside_gap_band() {
    // Gap centred at 20 with size 6: rows 17..=23 pass, others hit.
    let o = Obstacle { x: 5, gap_y: 20, size: 6 };
    for y in [0, 10, 16] {
        let p = Player { x: 5, y, velocity: 0 };
        assert!(o.hit_obstacle(&p), "row {}", y);
    }
    for y in [17, 20, 23] {
        let p = Player { x: 5, y, velocity: 0 };
        assert!(!o.hit_obstacle(&p), "row {}", y);
    }
    for y in [24, 30, 49] {
        let p = Player { x: 5, y, velocity: 0 };
        assert!(o.hit_obstacle(&p), "row {}", y);
    }
}

#[test]
fn obstacle_size_shrinks_with_score_floored_at_two() {
    let mut r = rng();
    for (score, expected) in [(0, 20), (1, 19), (5, 15), (17, 3), (18, 2), (19, 2), (100, 2)] {
        let o = Obstacle::new(40, score, &mut r);
        assert_eq!(o.size, expected, "score {}", score);
        assert_eq!(o.x, 40);
    }
}

#[test]
fn obstacle_gap_is_drawn_in_range() {
    // Runs the random draw many times: the gap centre always lands in
    // [10, 40), and does not just echo a bound back.
    let mut r = rng();
    let mut seen_not_min = false;
    for _ in 0..200 {
        let o = Obstacle::new(0, 0, &mut r);
        assert!((10..40).contains(&o.gap_y));
        if o.gap_y != 10 {
            seen_not_min = true;
        }
    }
    assert!(seen_not_min);
}

#[test]
fn screen_projection_subtracts_scroll() {
    let o = Obstacle { x: 100, gap_y: 20, size: 6 };
    assert_eq!(o.screen_x(60), 40);
    assert_eq!(o.screen_x(100), 0);
    assert_eq!(o.screen_x(120), -20);
}

#[test]
fn wall_rows_cover_everything_but_the_gap() {
    let o = Obstacle { x: 10, gap_y: 20, size: 6 };
    let rows = o.wall_rows();
    let mut expected: Vec<i32> = (0..17).collect();
    expected.extend(23..50);
    assert_eq!(rows, expected);
}

#[test]
fn wall_rows_with_widest_gap() {
    let o = Obstacle { x: 10, gap_y: 10, size: 20 };
    let rows = o.wall_rows();
    // Half size 10: no rows above the gap band, rows 20..50 below it.
    let expected: Vec<i32> = (20..50).collect();
    assert_eq!(rows, expected);
}

#[test]
fn new_state_starts_in_menu_with_fixed_layout() {
    let mut r = rng();
    let s = State::new(&mut r);
    assert_eq!(s.mode, GameMode::Menu);
    assert_eq!(s.score, 0);
    assert_eq!(s.frame_time, 0);
    assert_eq!(s.player.x, 5);
    assert_eq!(s.player.y, 25);
    assert_eq!(s.player.velocity, 0);
    assert_eq!(s.obstacle.x, SCREEN_WIDTH);
    assert_eq!(s.obstacle.size, 20);
    assert!((10..40).contains(&s.obstacle.gap_y));
}

#[test]
fn passing_the_obstacle_scores_and_reseeds() {
    // From the start layout (score 0, obstacle at column 80, player at
    // column 5), simulating until the player reaches column 81 scores one
    // point and places a fresh obstacle at 81 + 80 with gap height 19.
    let mut r = rng();
    let mut s = State::new(&mut r);
    s.mode = GameMode::Playing;
    assert_eq!(s.obstacle.x, 80);
    assert_eq!(s.player.x, 5);
    while s.player.x < 81 {
        s.play(None, FRAME_DURATION_MS + 1, &mut r);
    }
    assert_eq!(s.player.x, 81);
    assert_eq!(s.score, 1);
    assert_eq!(s.obstacle.x, 161);
    assert_eq!(s.obstacle.size, 19);
}

#[test]
fn falling_off_screen_ends_the_run() {
    // A player below the bottom of the screen, with no collision possible
    // (the obstacle is far ahead), flips the mode to game over that frame.
    let mut r = rng();
    let mut s = State::new(&mut r);
    s.mode = GameMode::Playing;
    s.player.y = SCREEN_HEIGHT + 1;
    assert_ne!(s.player.x, s.obstacle.x);
    s.play(None, 0, &mut r);
    assert_eq!(s.mode, GameMode::GameOver);
}

#[test]
fn collision_ends_the_run() {
    let mut r = rng();
    let mut s = State::new(&mut r);
    s.mode = GameMode::Playing;
    // Put the player one column before the obstacle, far above the gap, and
    // let one tick carry it onto the obstacle's column.
    s.obstacle = Obstacle { x: 80, gap_y: 20, size: 6 };
    s.player = Player { x: 79, y: 0, velocity: 0 };
    s.play(None, FRAME_DURATION_MS + 1, &mut r);
    assert_eq!(s.player.x, 80);
    assert_eq!(s.mode, GameMode::GameOver);
}

#[test]
fn enter_in_game_over_restarts() {
    let mut r = rng();
    let mut s = State::new(&mut r);
    s.mode = GameMode::GameOver;
    s.score = 7;
    s.player = Player { x: 200, y: 48, velocity: 20 };
    let quit = s.tick(Some(GameKey::Enter), 16, &mut r);
    assert!(!quit);
    assert_eq!(s.mode, GameMode::Playing);
    assert_eq!(s.score, 0);
    assert_eq!(s.player.x, 5);
    assert_eq!(s.player.y, 25);
    assert_eq!(s.player.velocity, 0);
    assert_eq!(s.frame_time, 0);
    assert_eq!(s.obstacle.x, SCREEN_WIDTH);
    assert_eq!(s.obstacle.size, 20);
}

#[test]
fn enter_in_menu_starts_playing() {
    let mut r = rng();
    let mut s = State::new(&mut r);
    let quit = s.tick(Some(GameKey::Enter), 16, &mut r);
    assert!(!quit);
    assert_eq!(s.mode, GameMode::Playing);
    assert_eq!(s.score, 0);
}

#[test]
fn escape_in_menu_asks_to_quit_and_changes_nothing() {
    let mut r = rng();
    let mut s = State::new(&mut r);
    let gap = s.obstacle.gap_y;
    let quit = s.tick(Some(GameKey::Escape), 16, &mut r);
    assert!(quit);
    assert_eq!(s.mode, GameMode::Menu);
    assert_eq!(s.score, 0);
    assert_eq!(s.obstacle.gap_y, gap);
}

#[test]
fn other_keys_are_ignored_in_menus() {
    let mut r = rng();
    let mut s = State::new(&mut r);
    let quit = s.tick(Some(GameKey::Space), 16, &mut r);
    assert!(!quit);
    assert_eq!(s.mode, GameMode::Menu);
    let quit = s.tick(None, 16, &mut r);
    assert!(!quit);
    assert_eq!(s.mode, GameMode::Menu);
}

#[test]
fn restart_twice_yields_identical_state_up_to_gap_draw() {
    let mut r = rng();
    let mut s = State::new(&mut r);
    s.restart(&mut r);
    let first = (
        s.player.x,
        s.player.y,
        s.player.velocity,
        s.frame_time,
        s.mode,
        s.score,
        s.obstacle.x,
        s.obstacle.size,
    );
    let first_gap = s.obstacle.gap_y;
    s.restart(&mut r);
    let second = (
        s.player.x,
        s.player.y,
        s.player.velocity,
        s.frame_time,
        s.mode,
        s.score,
        s.obstacle.x,
        s.obstacle.size,
    );
    assert_eq!(first, second);
    assert!((10..40).contains(&first_gap));
    assert!((10..40).contains(&s.obstacle.gap_y));
}

#[test]
fn flap_is_not_throttled_by_the_tick_gate() {
    // A frame too short to release a simulation tick still applies the flap.
    let mut r = rng();
    let mut s = State::new(&mut r);
    s.mode = GameMode::Playing;
    s.play(Some(GameKey::Space), 1, &mut r);
    assert_eq!(s.player.velocity, -20);
    assert_eq!(s.player.x, 5);
    assert_eq!(s.frame_time, 1);
}

#[test]
fn frame_time_accumulates_until_the_threshold() {
    let mut r = rng();
    let mut s = State::new(&mut r);
    s.mode = GameMode::Playing;
    s.play(None, 40, &mut r);
    assert_eq!(s.frame_time, 40);
    assert_eq!(s.player.x, 5);
    // 40 + 40 > 75: the accumulator resets and one tick runs.
    s.play(None, 40, &mut r);
    assert_eq!(s.frame_time, 0);
    assert_eq!(s.player.x, 6);
    assert_eq!(s.player.velocity, 2);
}
