use flappy_dragon::{GameMode, Key, Obstacle, Player, State, SCREEN_HEIGHT, SCREEN_WIDTH};

#[test]
fn gravity_increments_velocity_by_one_fifth() {
    // Velocity is held in tenths of a cell: 0.2 cells per step is 2 tenths.
    let mut p = Player::new(5, 25);
    p.apply_gravity();
    assert_eq!(p.velocity, 2);
    p.apply_gravity();
    assert_eq!(p.velocity, 4);
}

#[test]
fn gravity_caps_velocity_at_terminal() {
    let mut p = Player::new(5, 25);
    for _ in 0..30 {
        p.apply_gravity();
        assert!(p.velocity <= 20);
    }
    assert_eq!(p.velocity, 20);
    p.apply_gravity();
    assert_eq!(p.velocity, 20);
}

#[test]
fn gravity_moves_by_whole_cells_of_velocity() {
    let mut p = Player::new(5, 25);
    p.apply_gravity(); // velocity 0.2, moves 0 cells
    assert_eq!(p.y, 25);
    for _ in 0..9 {
        p.apply_gravity();
    }
    // velocity reached 2.0; steps moved 0 cells below 1.0, then 1, then 2
    assert_eq!(p.velocity, 20);
    assert_eq!(p.y, 25 + 0 + 0 + 0 + 0 + 1 + 1 + 1 + 1 + 1 + 2);
}

#[test]
fn flap_sets_velocity_regardless_of_prior() {
    let mut p = Player::new(5, 25);
    p.flap_wings();
    assert_eq!(p.velocity, -20);
    p.apply_gravity();
    p.apply_gravity();
    p.flap_wings();
    assert_eq!(p.velocity, -20);
    let mut q = Player::new(5, 25);
    for _ in 0..15 {
        q.apply_gravity();
    }
    q.flap_wings();
    assert_eq!(q.velocity, -20);
}

#[test]
fn position_clamped_at_top_of_screen() {
    let mut p = Player::new(5, 0);
    p.flap_wings();
    p.apply_gravity();
    assert_eq!(p.y, 0);
    let mut q = Player::new(5, 1);
    q.flap_wings();
    q.apply_gravity();
    assert_eq!(q.y, 0);
}

#[test]
fn move_forward_adds_exactly_one() {
    let mut p = Player::new(5, 25);
    p.move_forward();
    assert_eq!(p.x, 6);
    p.move_forward();
    assert_eq!(p.x, 7);
}

#[test]
fn hit_when_above_gap_in_window() {
    let o = Obstacle { x: 50, gap_y: 25, size: 5 };
    let p = Player::new(50, 15);
    assert!(o.is_hitting(&p));
}

#[test]
fn no_hit_inside_gap() {
    let o = Obstacle { x: 50, gap_y: 25, size: 5 };
    let p = Player::new(50, 25);
    assert!(!o.is_hitting(&p));
}

#[test]
fn no_hit_outside_horizontal_window() {
    let o = Obstacle { x: 50, gap_y: 25, size: 5 };
    let p = Player::new(10, 15);
    assert!(!o.is_hitting(&p));
}

#[test]
fn obstacle_spawn_is_deterministic_in_score() {
    let a = Obstacle::new(SCREEN_WIDTH, 0);
    let b = Obstacle::new(SCREEN_WIDTH, 0);
    assert_eq!(a.gap_y, b.gap_y);
    let c = Obstacle::new(200, 7);
    let d = Obstacle::new(300, 7);
    assert_eq!(c.gap_y, d.gap_y);
}

#[test]
fn obstacle_gap_stays_in_screen_band() {
    for score in 0..50 {
        let o = Obstacle::new(SCREEN_WIDTH, score);
        assert!(o.gap_y >= 10 && o.gap_y < 40);
    }
}

#[test]
fn obstacle_gap_shrinks_with_score_down_to_floor() {
    assert_eq!(Obstacle::new(SCREEN_WIDTH, 0).size, 10);
    assert_eq!(Obstacle::new(SCREEN_WIDTH, 3).size, 7);
    assert_eq!(Obstacle::new(SCREEN_WIDTH, 8).size, 2);
    assert_eq!(Obstacle::new(SCREEN_WIDTH, 9).size, 2);
    assert_eq!(Obstacle::new(SCREEN_WIDTH, 1000).size, 2);
}

#[test]
fn passing_obstacle_scores_and_respawns_ahead() {
    for prior_score in [0, 1, 7, 1000] {
        let mut s = State::new();
        s.restart();
        s.player = Player::new(100, 25);
        s.obstacle = Obstacle { x: 90, gap_y: 25, size: 5 };
        s.score = prior_score;
        s.check_collision();
        assert_eq!(s.score, prior_score + 1);
        assert_eq!(s.obstacle.x, 100 + SCREEN_WIDTH);
        assert!(matches!(s.mode, GameMode::Playing));
    }
}

#[test]
fn no_score_while_obstacle_ahead() {
    let mut s = State::new();
    s.restart();
    s.check_collision();
    assert_eq!(s.score, 0);
    assert_eq!(s.obstacle.x, SCREEN_WIDTH);
}

#[test]
fn collision_with_wall_ends_game() {
    let mut s = State::new();
    s.restart();
    s.player = Player::new(50, 15);
    s.obstacle = Obstacle { x: 50, gap_y: 25, size: 5 };
    s.check_collision();
    assert!(matches!(s.mode, GameMode::Over));
}

#[test]
fn falling_below_screen_ends_game() {
    let mut s = State::new();
    s.restart();
    s.player = Player::new(10, SCREEN_HEIGHT + 1);
    s.check_collision();
    assert!(matches!(s.mode, GameMode::Over));
}

#[test]
fn restart_resets_everything() {
    let mut s = State::new();
    s.restart();
    s.player = Player::new(300, 49);
    s.score = 12;
    s.frame_time = 60;
    s.mode = GameMode::Over;
    s.restart();
    assert!(matches!(s.mode, GameMode::Playing));
    assert_eq!(s.score, 0);
    assert_eq!(s.frame_time, 0);
    assert_eq!(s.player.x, 5);
    assert_eq!(s.player.y, 25);
    assert_eq!(s.player.velocity, 0);
    assert_eq!(s.obstacle.x, SCREEN_WIDTH);
}

#[test]
fn tick_accumulates_frame_time_before_stepping() {
    let mut s = State::new();
    s.restart();
    let x0 = s.player.x;
    let quit = s.tick(40, None);
    assert!(!quit);
    assert_eq!(s.frame_time, 40);
    assert_eq!(s.player.x, x0);
    s.tick(40, None);
    // 40 + 40 crossed the 75 ms threshold: one physics step, accumulator reset
    assert_eq!(s.frame_time, 0);
    assert_eq!(s.player.x, x0 + 1);
}

#[test]
fn tick_consumes_flap_independently_of_step_gate() {
    let mut s = State::new();
    s.restart();
    s.tick(10, Some(Key::Space));
    assert_eq!(s.player.velocity, -20);
}

#[test]
fn menu_ignores_space() {
    let mut s = State::new();
    let quit = s.tick(100, Some(Key::Space));
    assert!(!quit);
    assert!(matches!(s.mode, GameMode::Menu));
    assert_eq!(s.frame_time, 0);
}

#[test]
fn paused_mode_is_inert() {
    let mut s = State::new();
    s.restart();
    s.mode = GameMode::Paused;
    let quit = s.tick(100, Some(Key::P));
    assert!(!quit);
    assert!(matches!(s.mode, GameMode::Paused));
    assert_eq!(s.frame_time, 0);
    assert_eq!(s.player.x, 5);
}

#[test]
fn menu_to_playing_to_over_to_quit() {
    let mut s = State::new();
    assert!(matches!(s.mode, GameMode::Menu));

    let quit = s.tick(0, Some(Key::P));
    assert!(!quit);
    assert!(matches!(s.mode, GameMode::Playing));
    assert_eq!(s.score, 0);

    // No flaps: gravity drives the player below the screen, ending the game.
    let mut ticks = 0;
    while matches!(s.mode, GameMode::Playing) {
        let quit = s.tick(100, None);
        assert!(!quit);
        ticks += 1;
        assert!(ticks < 100, "game should have ended by now");
    }
    assert!(matches!(s.mode, GameMode::Over));
    assert!(s.player.y > SCREEN_HEIGHT);

    let quit = s.tick(0, Some(Key::Q));
    assert!(quit);
    assert!(matches!(s.mode, GameMode::Over));
}

#[test]
fn over_restarts_on_p() {
    let mut s = State::new();
    s.restart();
    s.mode = GameMode::Over;
    s.score = 9;
    let quit = s.tick(0, Some(Key::P));
    assert!(!quit);
    assert!(matches!(s.mode, GameMode::Playing));
    assert_eq!(s.score, 0);
}
