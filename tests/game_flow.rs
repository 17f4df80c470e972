use bare_metal_game::game::{DecodedKey, Difficulty, Game, GameMode, GameState, KeyCode};
use bare_metal_game::paddle_ball::{Ball, Player, PADDLE_HEIGHT};
use bare_metal_game::screen::{Cell, Color, Screen, HEIGHT, WIDTH};

fn ch(c: char) -> DecodedKey {
    DecodedKey::Unicode(c)
}

fn playing(difficulty_key: char) -> Game {
    let mut g = Game::new();
    g.key(DecodedKey::RawKey(KeyCode::Enter));
    g.key(ch('f'));
    g.key(ch(difficulty_key));
    assert_eq!(g.game_state, GameState::Playing);
    g
}

fn cells_of(s: &Screen) -> Vec<Cell> {
    let mut v = Vec::new();
    for row in 0..HEIGHT {
        for col in 0..WIDTH {
            v.push(s.cell(col, row));
        }
    }
    v
}

fn text_at(s: &Screen, col: usize, row: usize, len: usize) -> String {
    (col..col + len).map(|c| s.cell(c, row).glyph as char).collect()
}

#[test]
fn menu_flow_to_playing() {
    let mut g = Game::new();
    assert_eq!(g.game_state, GameState::MainMenu);
    g.key(DecodedKey::RawKey(KeyCode::Enter));
    assert_eq!(g.game_state, GameState::SelectGameMode);
    g.key(ch('f'));
    assert_eq!(g.game_state, GameState::DifficultySelect);
    assert_eq!(g.game_mode, GameMode::Footy);
    g.key(ch('2'));
    assert_eq!(g.game_state, GameState::Playing);
    assert_eq!(g.difficulty, Difficulty::Medium);
}

#[test]
fn return_characters_also_leave_main_menu() {
    let mut g = Game::new();
    g.key(ch('\r'));
    assert_eq!(g.game_state, GameState::SelectGameMode);
    let mut g = Game::new();
    g.key(ch('\n'));
    assert_eq!(g.game_state, GameState::SelectGameMode);
}

#[test]
fn main_menu_ignores_other_keys_but_moves_paddles() {
    let mut g = Game::new();
    for k in [ch('f'), ch('2'), ch('r'), ch('m'), ch('x'), DecodedKey::RawKey(KeyCode::Other)] {
        g.key(k);
        assert_eq!(g.game_state, GameState::MainMenu);
    }
    let y1 = g.player1.y;
    g.key(ch('w'));
    assert_eq!(g.game_state, GameState::MainMenu);
    assert_eq!(g.player1.y, y1 - 1);
    let y2 = g.player2.y;
    g.key(DecodedKey::RawKey(KeyCode::ArrowDown));
    assert_eq!(g.game_state, GameState::MainMenu);
    assert_eq!(g.player2.y, y2 + 1);
}

#[test]
fn mode_and_difficulty_choices() {
    let mut g = Game::new();
    g.key(ch('\n'));
    g.key(ch('t'));
    assert_eq!(g.game_mode, GameMode::Tennis);
    g.key(ch('3'));
    assert_eq!(g.difficulty, Difficulty::Hard);
    let mut g = Game::new();
    g.key(ch('\n'));
    g.key(ch('h'));
    assert_eq!(g.game_mode, GameMode::Hockey);
    g.key(ch('1'));
    assert_eq!(g.difficulty, Difficulty::Easy);
}

#[test]
fn point_on_right_edge_scores_left_and_serves() {
    let mut g = playing('0');
    g.ball = Ball::new(WIDTH - 2, 10, 1, 0);
    g.tick();
    assert_eq!(g.score1, 1);
    assert_eq!(g.score2, 0);
    assert_eq!((g.ball.x, g.ball.y), (WIDTH / 2, HEIGHT / 2));
    assert_eq!((g.ball.x_velocity, g.ball.y_velocity), (-1, 1));
    assert_eq!(g.game_state, GameState::Playing);
}

#[test]
fn point_on_left_edge_scores_right_and_serves() {
    let mut g = playing('0');
    g.ball = Ball::new(1, 20, -1, 0);
    g.tick();
    assert_eq!(g.score2, 1);
    assert_eq!(g.score1, 0);
    assert_eq!((g.ball.x, g.ball.y), (WIDTH / 2, HEIGHT / 2));
    assert_eq!((g.ball.x_velocity, g.ball.y_velocity), (1, 1));
}

#[test]
fn seven_points_end_the_round() {
    let mut g = playing('0');
    for i in 0..7u32 {
        assert_eq!(g.game_state, GameState::Playing);
        g.ball = Ball::new(WIDTH - 2, 10, 1, 0);
        g.tick();
        assert_eq!(g.score1, i + 1);
    }
    assert_eq!(g.game_state, GameState::GameOver);
    assert_eq!(g.check_for_winner(), 1);
    g.tick();
    g.tick();
    assert_eq!(g.score1, 7);
    assert_eq!(g.game_state, GameState::GameOver);
    assert_eq!(text_at(&g.screen, 33, 10, 14), "Player 1 WINS!");
}

#[test]
fn restart_and_main_menu_after_round() {
    let mut g = playing('0');
    for _ in 0..7 {
        g.ball = Ball::new(1, 10, -1, 0);
        g.tick();
    }
    assert_eq!(g.game_state, GameState::GameOver);
    assert_eq!(g.check_for_winner(), 2);
    g.key(ch('r'));
    assert_eq!(g.game_state, GameState::Playing);
    assert_eq!((g.score1, g.score2), (0, 0));
    assert_eq!((g.ball.x, g.ball.y, g.ball.x_velocity, g.ball.y_velocity), (40, 12, 1, 1));
    for _ in 0..7 {
        g.ball = Ball::new(1, 10, -1, 0);
        g.tick();
    }
    g.key(ch('m'));
    assert_eq!(g.game_state, GameState::MainMenu);
    assert_eq!((g.score1, g.score2), (0, 0));
    assert_eq!(g.player1.y, 10);
}

#[test]
fn restart_ignored_during_play() {
    let mut g = playing('0');
    g.ball = Ball::new(WIDTH - 2, 10, 1, 0);
    g.tick();
    g.key(ch('r'));
    assert_eq!(g.score1, 1);
    assert_eq!(g.game_state, GameState::Playing);
}

#[test]
fn ball_bounces_off_top_wall() {
    let mut g = playing('0');
    g.ball = Ball::new(40, 1, 1, -1);
    g.tick();
    assert_eq!((g.ball.x, g.ball.y), (41, 0));
    assert_eq!(g.ball.y_velocity, 1);
    g.tick();
    assert_eq!(g.ball.y, 1);
}

#[test]
fn ball_bounces_off_bottom_wall() {
    let mut g = playing('0');
    g.ball = Ball::new(40, HEIGHT - 2, 1, 1);
    g.tick();
    assert_eq!(g.ball.y, HEIGHT - 1);
    assert_eq!(g.ball.y_velocity, -1);
}

#[test]
fn ball_bounces_off_left_paddle() {
    let mut g = playing('0');
    // Left paddle covers rows 10..15 in column 2.
    g.ball = Ball::new(3, 12, -1, 1);
    g.tick();
    assert_eq!((g.ball.x, g.ball.y), (2, 13));
    assert_eq!(g.ball.x_velocity, 1);
    assert_eq!(g.ball.y_velocity, 1);
}

#[test]
fn ball_bounces_off_right_paddle_top_row_flat() {
    let mut g = playing('0');
    g.ball = Ball::new(WIDTH - 4, 9, 1, 1);
    g.tick();
    assert_eq!((g.ball.x, g.ball.y), (WIDTH - 3, 10));
    assert_eq!(g.ball.x_velocity, -1);
    assert_eq!(g.ball.y_velocity, 0);
}

#[test]
fn cpu_chases_ball_at_its_speed() {
    let mut g = playing('3');
    g.ball = Ball::new(40, 20, 1, 0);
    g.tick();
    assert_eq!(g.player2.y, 13);
    let mut g = playing('1');
    g.ball = Ball::new(40, 0, 1, 0);
    g.tick();
    assert_eq!(g.player2.y, 9);
    let mut g = playing('0');
    g.ball = Ball::new(40, 0, 1, 0);
    g.tick();
    assert_eq!(g.player2.y, 10);
}

#[test]
fn paddles_stay_on_grid_under_keys_and_ticks() {
    let mut g = playing('2');
    let keys = [ch('w'), ch('s'), DecodedKey::RawKey(KeyCode::ArrowUp), DecodedKey::RawKey(KeyCode::ArrowDown)];
    let mut seed: u32 = 12345;
    for _ in 0..2000 {
        seed = seed.wrapping_mul(1103515245).wrapping_add(12345);
        let k = keys[((seed >> 16) % 4) as usize];
        g.key(k);
        if (seed >> 8) % 3 == 0 {
            g.tick();
        }
        assert!(g.player1.y <= HEIGHT - PADDLE_HEIGHT);
        assert!(g.player2.y <= HEIGHT - PADDLE_HEIGHT);
        assert!(g.ball.y <= HEIGHT);
        assert!(g.score1 <= 7 && g.score2 <= 7);
        if g.game_state == GameState::GameOver {
            g.key(ch('r'));
        }
    }
}

#[test]
fn menu_draw_twice_is_identical() {
    let mut g = Game::new();
    g.tick();
    let first = cells_of(&g.screen);
    g.tick();
    assert_eq!(first, cells_of(&g.screen));
    assert_eq!(text_at(&g.screen, 35, 10, 10), "FOOTY-PONG");
    assert_eq!(text_at(&g.screen, 30, 13, 20), "Press ENTER to start");
    assert_eq!(g.screen.cell(35, 10).fg, Color::Yellow);
    g.key(ch('\n'));
    g.tick();
    let second = cells_of(&g.screen);
    g.tick();
    assert_eq!(second, cells_of(&g.screen));
    assert_eq!(text_at(&g.screen, 32, 10, 17), "Select Game Mode:");
    assert_eq!(text_at(&g.screen, 36, 12, 8), "[F]ooty ");
}

#[test]
fn difficulty_menu_layout() {
    let mut g = Game::new();
    g.key(ch('\n'));
    g.key(ch('h'));
    g.tick();
    assert_eq!(text_at(&g.screen, 31, 10, 18), "Select Difficulty:");
    assert_eq!(text_at(&g.screen, 33, 12, 15), "[0] Multiplayer");
    assert_eq!(text_at(&g.screen, 33, 15, 15), "[3] Hard       ");
}

#[test]
fn playing_frame_draws_field_paddles_score_and_ball() {
    let mut g = playing('0');
    g.tick();
    let s = &g.screen;
    assert_eq!(s.cell(0, 5).glyph, b'|');
    assert_eq!(s.cell(5, 0).glyph, b'-');
    assert_eq!(s.cell(40, 5).glyph, b'|');
    assert_eq!(s.cell(10, 10).bg, Color::Green);
    assert_eq!(s.cell(2, 10).glyph, b'#');
    assert_eq!(s.cell(2, 10).fg, Color::Blue);
    assert_eq!(s.cell(77, 14).glyph, b'#');
    assert_eq!(s.cell(77, 14).fg, Color::Red);
    assert_eq!(s.cell(30, 1).glyph, b'0');
    assert_eq!(s.cell(50, 1).glyph, b'0');
    assert_eq!(s.cell(41, 13).glyph, b'@');
    assert_eq!(s.cell(41, 13).fg, Color::White);
    // Left penalty box: its top edge is drawn over its side line.
    assert_eq!(s.cell(13, 10).glyph, b'|');
    assert_eq!(s.cell(13, 3).glyph, b'-');
    assert_eq!(s.cell(12, 21).glyph, b'-');
}

#[test]
fn hockey_and_tennis_fields() {
    let mut g = Game::new();
    g.key(ch('\n'));
    g.key(ch('h'));
    g.key(ch('0'));
    g.tick();
    assert_eq!(g.screen.cell(40, 20).fg, Color::Red);
    assert_eq!(g.screen.cell(20, 20).fg, Color::Blue);
    assert_eq!(g.screen.cell(10, 10).bg, Color::White);
    let mut g = Game::new();
    g.key(ch('\n'));
    g.key(ch('t'));
    g.key(ch('0'));
    g.tick();
    assert_eq!(g.screen.cell(5, 2).glyph, b'-');
    assert_eq!(g.screen.cell(30, 12).glyph, b'-');
    assert_eq!(g.screen.cell(10, 10).bg, Color::Blue);
}

#[test]
fn service_runs_one_tick_for_many_elapsed() {
    let mut g = Game::new();
    let last = g.service(Some(DecodedKey::RawKey(KeyCode::Enter)), 5, 0);
    assert_eq!(last, 5);
    assert_eq!(g.game_state, GameState::SelectGameMode);
    assert_eq!(text_at(&g.screen, 32, 10, 17), "Select Game Mode:");
    let last = g.service(None, 5, last);
    assert_eq!(last, 5);
}

#[test]
fn player_moves_are_bounded() {
    let mut p = Player::new(2, 0, 1);
    p.move_up();
    assert_eq!(p.y, 0);
    p.move_down();
    assert_eq!(p.y, 1);
    let mut p = Player::new(2, HEIGHT - PADDLE_HEIGHT, 1);
    p.move_down();
    assert_eq!(p.y, HEIGHT - PADDLE_HEIGHT);
}

#[test]
fn ball_reset_and_direction() {
    let mut b = Ball::new(5, 6, 1, -1);
    b.change_direction(-1, 0);
    assert_eq!((b.x, b.y, b.x_velocity, b.y_velocity), (5, 6, -1, 0));
    b.reset(40, 12, 1, 1);
    assert_eq!((b.x, b.y, b.x_velocity, b.y_velocity), (40, 12, 1, 1));
}

#[test]
fn text_is_cut_at_right_edge_and_numbers_in_decimal() {
    let mut s = Screen::new();
    s.draw_text("abcdef", WIDTH - 3, 4, Color::White, Color::Black);
    assert_eq!(text_at(&s, WIDTH - 3, 4, 3), "abc");
    assert_eq!(s.cell(0, 5).glyph, b' ');
    s.draw_number(407, 10, 2, Color::Red, Color::Black);
    assert_eq!(text_at(&s, 10, 2, 3), "407");
    s.draw_centered("ab", 0, Color::White, Color::Black);
    assert_eq!(text_at(&s, 39, 0, 2), "ab");
}
