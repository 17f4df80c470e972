use vstd::prelude::*;

use crate::paddle_ball::{max_paddle_row, Ball, Player, PADDLE_HEIGHT};
use crate::render::{background_of, ball_color_of, tick_frame};
use crate::screen::{blank_cell, filled, Color, Screen, HEIGHT, WIDTH};

verus! {

/// Points that win a round.
pub const WIN_SCORE: u32 = 7;

/// Column of the left paddle.
pub const LEFT_PADDLE_COL: usize = 2;

/// Column of the right paddle.
pub const RIGHT_PADDLE_COL: usize = WIDTH - 3;

/// Top row of a paddle at the start of a round.
pub const START_ROW: usize = HEIGHT / 2 - PADDLE_HEIGHT / 2;

/// Where the ball is served from.
pub const CENTER_COL: usize = WIDTH / 2;

pub const CENTER_ROW: usize = HEIGHT / 2;

#[derive(Clone, Copy, Debug, PartialEq, Eq, Structural)]
pub enum GameState {
    MainMenu,
    SelectGameMode,
    DifficultySelect,
    Playing,
    GameOver,
}

/// The sport the field is dressed as; it changes colors and decoration only.
#[derive(Clone, Copy, Debug, PartialEq, Eq, Structural)]
pub enum GameMode {
    Footy,
    Hockey,
    Tennis,
}

/// Whether the right paddle is played by a second person or by the CPU,
/// and how fast the CPU pursues the ball.
#[derive(Clone, Copy, Debug, PartialEq, Eq, Structural)]
pub enum Difficulty {
    Multiplayer,
    Easy,
    Medium,
    Hard,
}

/// The named keys the game reacts to; every other named key is `Other`.
#[derive(Clone, Copy, Debug, PartialEq, Eq, Structural)]
pub enum KeyCode {
    ArrowUp,
    ArrowDown,
    Enter,
    Other,
}

/// A key press: a named key, or the character it types.
#[derive(Clone, Copy, Debug, PartialEq, Eq, Structural)]
pub enum DecodedKey {
    RawKey(KeyCode),
    Unicode(char),
}

/// The whole game: both paddles, the ball, the score, the menu flow, and
/// the grid it draws into.
pub struct Game {
    pub player1: Player,
    pub player2: Player,
    pub ball: Ball,
    pub score1: u32,
    pub score2: u32,
    pub game_mode: GameMode,
    pub game_state: GameState,
    pub difficulty: Difficulty,
    pub screen: Screen,
}

/// Everything of a `Game` but its grid.
pub struct GameView {
    pub player1: Player,
    pub player2: Player,
    pub ball: Ball,
    pub score1: u32,
    pub score2: u32,
    pub game_mode: GameMode,
    pub game_state: GameState,
    pub difficulty: Difficulty,
}

impl View for Game {
    type V = GameView;

    open spec fn view(&self) -> GameView {
        GameView {
            player1: self.player1,
            player2: self.player2,
            ball: self.ball,
            score1: self.score1,
            score2: self.score2,
            game_mode: self.game_mode,
            game_state: self.game_state,
            difficulty: self.difficulty,
        }
    }
}

/// The ball's step: horizontal one cell either way, vertical at most one cell;
/// it never leaves the rows `0..=HEIGHT` and is always headed back from the edge rows.
pub open spec fn ball_ok(b: Ball) -> bool {
    &&& b.x_velocity == 1 || b.x_velocity == -1
    &&& -1 <= b.y_velocity <= 1
    &&& b.x < WIDTH
    &&& b.y <= HEIGHT
    &&& b.y == 0 ==> b.y_velocity >= 0
    &&& b.y == HEIGHT ==> b.y_velocity == -1
}

impl GameView {
    /// What holds between any two events.
    pub open spec fn wf(&self) -> bool {
        &&& self.player1.wf()
        &&& self.player2.wf()
        &&& self.player1.x == LEFT_PADDLE_COL
        &&& self.player2.x == RIGHT_PADDLE_COL
        &&& self.player2.max_velocity == 3
        &&& ball_ok(self.ball)
        &&& self.score1 <= WIN_SCORE
        &&& self.score2 <= WIN_SCORE
        &&& !(self.score1 == WIN_SCORE && self.score2 == WIN_SCORE)
        &&& (self.game_state == GameState::GameOver) == (self.score1 == WIN_SCORE || self.score2 == WIN_SCORE)
        &&& self.game_state != GameState::GameOver ==> 1 <= self.ball.x <= WIDTH - 2
    }
}

impl Game {
    pub open spec fn wf(&self) -> bool {
        self@.wf() && self.screen.wf()
    }
}

/// The paddle `p` with its top row at `y`.
pub open spec fn at_row(p: Player, y: int) -> Player {
    Player { x: p.x, y: y as usize, prev_y: p.prev_y, max_velocity: p.max_velocity }
}

/// The ball `b` put at `(x, y)` with step `(vx, vy)`; its last drawn cell is kept.
pub open spec fn served(b: Ball, x: int, y: int, vx: int, vy: int) -> Ball {
    Ball { x: x as usize, y: y as usize, x_velocity: vx as isize, y_velocity: vy as isize, prev_x: b.prev_x, prev_y: b.prev_y }
}

pub open spec fn row_up(y: int) -> int {
    if y > 0 { y - 1 } else { y }
}

pub open spec fn row_down(y: int) -> int {
    if y < max_paddle_row() { y + 1 } else { y }
}

pub open spec fn is_enter(k: DecodedKey) -> bool {
    k == DecodedKey::RawKey(KeyCode::Enter) || k == DecodedKey::Unicode('\n') || k == DecodedKey::Unicode('\r')
}

/// Whether `k` starts a new round: `r` or `m` once the round is over.
pub open spec fn restarts(state: GameState, k: DecodedKey) -> bool {
    state == GameState::GameOver && (k == DecodedKey::Unicode('r') || k == DecodedKey::Unicode('m'))
}

/// The menu state after key `k`.
pub open spec fn next_state(state: GameState, k: DecodedKey) -> GameState {
    match state {
        GameState::MainMenu => if is_enter(k) { GameState::SelectGameMode } else { state },
        GameState::SelectGameMode => {
            if k == DecodedKey::Unicode('f') || k == DecodedKey::Unicode('h') || k == DecodedKey::Unicode('t') {
                GameState::DifficultySelect
            } else {
                state
            }
        },
        GameState::DifficultySelect => {
            if k == DecodedKey::Unicode('0') || k == DecodedKey::Unicode('1') || k == DecodedKey::Unicode('2')
                || k == DecodedKey::Unicode('3') {
                GameState::Playing
            } else {
                state
            }
        },
        GameState::Playing => state,
        GameState::GameOver => {
            if k == DecodedKey::Unicode('r') {
                GameState::Playing
            } else if k == DecodedKey::Unicode('m') {
                GameState::MainMenu
            } else {
                state
            }
        },
    }
}

/// The sport after key `k`.
pub open spec fn next_mode(state: GameState, mode: GameMode, k: DecodedKey) -> GameMode {
    if state != GameState::SelectGameMode {
        mode
    } else if k == DecodedKey::Unicode('f') {
        GameMode::Footy
    } else if k == DecodedKey::Unicode('h') {
        GameMode::Hockey
    } else if k == DecodedKey::Unicode('t') {
        GameMode::Tennis
    } else {
        mode
    }
}

/// The difficulty after key `k`.
pub open spec fn next_difficulty(state: GameState, d: Difficulty, k: DecodedKey) -> Difficulty {
    if state != GameState::DifficultySelect {
        d
    } else if k == DecodedKey::Unicode('0') {
        Difficulty::Multiplayer
    } else if k == DecodedKey::Unicode('1') {
        Difficulty::Easy
    } else if k == DecodedKey::Unicode('2') {
        Difficulty::Medium
    } else if k == DecodedKey::Unicode('3') {
        Difficulty::Hard
    } else {
        d
    }
}

/// The game after key `k`: `w`/`s` move the left paddle and the arrow keys the
/// right one in every state; the other keys drive the menus.
pub open spec fn key_step(v: GameView, k: DecodedKey) -> GameView {
    let restart = restarts(v.game_state, k);
    GameView {
        player1: if restart {
            at_row(v.player1, START_ROW as int)
        } else if k == DecodedKey::Unicode('w') {
            at_row(v.player1, row_up(v.player1.y as int))
        } else if k == DecodedKey::Unicode('s') {
            at_row(v.player1, row_down(v.player1.y as int))
        } else {
            v.player1
        },
        player2: if restart {
            at_row(v.player2, START_ROW as int)
        } else if k == DecodedKey::RawKey(KeyCode::ArrowUp) {
            at_row(v.player2, row_up(v.player2.y as int))
        } else if k == DecodedKey::RawKey(KeyCode::ArrowDown) {
            at_row(v.player2, row_down(v.player2.y as int))
        } else {
            v.player2
        },
        ball: if restart { served(v.ball, CENTER_COL as int, CENTER_ROW as int, 1, 1) } else { v.ball },
        score1: if restart { 0 } else { v.score1 },
        score2: if restart { 0 } else { v.score2 },
        game_mode: next_mode(v.game_state, v.game_mode, k),
        game_state: next_state(v.game_state, k),
        difficulty: next_difficulty(v.game_state, v.difficulty, k),
    }
}

/// Who has won: 1 for the left side, 2 for the right side, 0 for nobody yet.
pub open spec fn winner_of(score1: int, score2: int) -> u8 {
    if score1 >= WIN_SCORE {
        1
    } else if score2 >= WIN_SCORE {
        2
    } else {
        0
    }
}

pub open spec fn sign(v: int) -> int {
    if v > 0 {
        1
    } else if v < 0 {
        -1
    } else {
        0
    }
}

/// Rows per tick the CPU paddle chases the ball at; zero when a person plays it.
pub open spec fn cpu_speed(d: Difficulty) -> int {
    match d {
        Difficulty::Multiplayer => 0,
        Difficulty::Easy => 1,
        Difficulty::Medium => 2,
        Difficulty::Hard => 3,
    }
}

/// `r` kept within the rows a paddle's top may take.
pub open spec fn clamp_row(r: int) -> int {
    if r < 0 {
        0
    } else if r > max_paddle_row() {
        max_paddle_row()
    } else {
        r
    }
}

/// The CPU paddle's next top row: one step of `speed` towards the ball's row,
/// the step no larger than `max_step`, the result kept on the grid.
pub open spec fn cpu_row(paddle_row: int, ball_row: int, speed: int, max_step: int) -> int {
    if speed > 0 {
        let step = speed * sign(ball_row - paddle_row);
        clamp_row(paddle_row + if step < max_step { step } else { max_step })
    } else {
        paddle_row
    }
}

/// The CPU's move of the right paddle.
pub open spec fn cpu_step(v: GameView) -> GameView {
    GameView {
        player2: at_row(
            v.player2,
            cpu_row(v.player2.y as int, v.ball.y as int, cpu_speed(v.difficulty), v.player2.max_velocity as int),
        ),
        ..v
    }
}

/// Both paddles remember where they were drawn.
pub open spec fn drawn_step(v: GameView) -> GameView {
    GameView {
        player1: Player { prev_y: v.player1.y, ..v.player1 },
        player2: Player { prev_y: v.player2.y, ..v.player2 },
        ..v
    }
}

/// The ball moves by its step and remembers where it is drawn.
pub open spec fn move_step(v: GameView) -> GameView {
    let x = v.ball.x + v.ball.x_velocity;
    let y = v.ball.y + v.ball.y_velocity;
    GameView {
        ball: Ball {
            x: x as usize,
            y: y as usize,
            x_velocity: v.ball.x_velocity,
            y_velocity: v.ball.y_velocity,
            prev_x: x as usize,
            prev_y: y as usize,
        },
        ..v
    }
}

/// Whether the ball is in paddle `p`'s column and within its rows.
pub open spec fn hits(b: Ball, p: Player) -> bool {
    b.x == p.x && p.y <= b.y < p.y + PADDLE_HEIGHT
}

pub open spec fn abs(v: int) -> int {
    if v < 0 { -v } else { v }
}

/// The ball's step after the wall and paddle checks, in that order, each
/// overriding what the one before set.
pub open spec fn bounced(b: Ball, p1: Player, p2: Player) -> (int, int) {
    let vx = b.x_velocity as int;
    let vy0 = b.y_velocity as int;
    let vy1 = if b.y <= 0 || b.y >= HEIGHT - 1 { -vy0 } else { vy0 };
    let (vx2, vy2) = if hits(b, p1) { (abs(vx), sign(b.y - p1.y)) } else { (vx, vy1) };
    if hits(b, p2) { (-abs(vx), sign(b.y - p2.y)) } else { (vx2, vy2) }
}

/// Wall and paddle bounces, then the points: the left side scores when the
/// ball reaches the right edge, the right side when it reaches the left edge.
/// A point that does not win serves the ball from the middle towards the side
/// that scored; one that wins ends the round and leaves the ball where it is.
pub open spec fn collide_step(v: GameView) -> GameView {
    let b = v.ball;
    let (vx, vy) = bounced(b, v.player1, v.player2);
    let moving = Ball { x_velocity: vx as isize, y_velocity: vy as isize, ..b };
    if b.x >= WIDTH - 1 {
        let s = v.score1 + 1;
        GameView {
            score1: s as u32,
            ball: if s == WIN_SCORE { moving } else { served(moving, CENTER_COL as int, CENTER_ROW as int, -1, 1) },
            game_state: if s == WIN_SCORE { GameState::GameOver } else { v.game_state },
            ..v
        }
    } else if b.x <= 0 {
        let s = v.score2 + 1;
        GameView {
            score2: s as u32,
            ball: if s == WIN_SCORE { moving } else { served(moving, CENTER_COL as int, CENTER_ROW as int, 1, 1) },
            game_state: if s == WIN_SCORE { GameState::GameOver } else { v.game_state },
            ..v
        }
    } else {
        GameView { ball: moving, ..v }
    }
}

/// The round ends when either side has the winning score.
pub open spec fn win_step(v: GameView) -> GameView {
    if v.score1 == WIN_SCORE || v.score2 == WIN_SCORE {
        GameView { game_state: GameState::GameOver, ..v }
    } else {
        v
    }
}

/// One tick of play: CPU move, paddles drawn, ball moved, bounces and points,
/// end of round. Outside play a tick changes nothing but the grid.
pub open spec fn tick_step(v: GameView) -> GameView {
    if v.game_state == GameState::Playing {
        win_step(collide_step(move_step(drawn_step(cpu_step(v)))))
    } else {
        v
    }
}

/// Ticks and key presses keep the game well formed; in particular both
/// paddles' top rows stay within `0..=HEIGHT - PADDLE_HEIGHT`.
pub proof fn lemma_paddles_stay_on_grid(v: GameView, k: DecodedKey)
    requires
        v.wf(),
    ensures
        tick_step(v).wf(),
        key_step(v, k).wf(),
        tick_step(v).player1.y <= max_paddle_row(),
        tick_step(v).player2.y <= max_paddle_row(),
        key_step(v, k).player1.y <= max_paddle_row(),
        key_step(v, k).player2.y <= max_paddle_row(),
{
}

/// During play the ball's row stays within `0..=HEIGHT`; when the moved ball
/// is on row 0 or on the last row, touches no paddle and scores no point,
/// its vertical step is reversed in that same tick.
pub proof fn lemma_ball_reflects(v: GameView)
    requires
        v.wf(),
        v.game_state == GameState::Playing,
    ensures
        ({
            let c = move_step(drawn_step(cpu_step(v)));
            let e = tick_step(v);
            &&& 0 <= e.ball.y <= HEIGHT
            &&& (c.ball.y == 0 || c.ball.y >= HEIGHT - 1) && !hits(c.ball, c.player1) && !hits(c.ball, c.player2)
                && 0 < c.ball.x < WIDTH - 1 ==> e.ball.y_velocity == -v.ball.y_velocity
        }),
{
}

/// A ball in a paddle's column and rows leaves it heading away from that
/// paddle: rightwards from the left paddle, leftwards from the right one.
pub proof fn lemma_paddle_bounce(v: GameView)
    requires
        v.wf(),
        v.game_state == GameState::Playing,
    ensures
        ({
            let c = move_step(drawn_step(cpu_step(v)));
            let e = tick_step(v);
            &&& hits(c.ball, c.player1) ==> e.ball.x_velocity == 1
            &&& hits(c.ball, c.player2) ==> e.ball.x_velocity == -1
        }),
{
}

/// A ball that reaches the right edge gives the left side exactly one point,
/// one that reaches the left edge gives the right side exactly one; unless
/// that point wins, the ball is served again from the middle towards the
/// side that scored, and play goes on; a winning point ends the round.
pub proof fn lemma_scoring(v: GameView)
    requires
        v.wf(),
        v.game_state == GameState::Playing,
    ensures
        ({
            let c = move_step(drawn_step(cpu_step(v)));
            let e = tick_step(v);
            &&& c.ball.x >= WIDTH - 1 ==> {
                &&& e.score1 == v.score1 + 1
                &&& e.score2 == v.score2
                &&& e.score1 < WIN_SCORE ==> e.game_state == GameState::Playing && e.ball.x == CENTER_COL
                    && e.ball.y == CENTER_ROW && e.ball.x_velocity == -1 && e.ball.y_velocity == 1
                &&& e.score1 == WIN_SCORE ==> e.game_state == GameState::GameOver
            }
            &&& c.ball.x <= 0 ==> {
                &&& e.score2 == v.score2 + 1
                &&& e.score1 == v.score1
                &&& e.score2 < WIN_SCORE ==> e.game_state == GameState::Playing && e.ball.x == CENTER_COL
                    && e.ball.y == CENTER_ROW && e.ball.x_velocity == 1 && e.ball.y_velocity == 1
                &&& e.score2 == WIN_SCORE ==> e.game_state == GameState::GameOver
            }
            &&& 0 < c.ball.x < WIDTH - 1 ==> e.score1 == v.score1 && e.score2 == v.score2
        }),
{
}

/// Once the round is over, ticks change nothing: scores, paddles and ball
/// stay as they are, and no score ever passes the winning score.
pub proof fn lemma_game_over_frozen(v: GameView)
    requires
        v.wf(),
        v.game_state == GameState::GameOver,
    ensures
        tick_step(v) == v,
        v.score1 <= WIN_SCORE && v.score2 <= WIN_SCORE,
{
}

/// At the main menu only Enter (as a named key or as a typed newline or
/// carriage return) leads on, to the choice of sport; every other key leaves
/// the menu state as it is.
pub proof fn lemma_main_menu_keys(v: GameView, k: DecodedKey)
    requires
        v.game_state == GameState::MainMenu,
    ensures
        key_step(v, k).game_state == if is_enter(k) { GameState::SelectGameMode } else { GameState::MainMenu },
{
}

impl Game {
    /// A game at the main menu, paddles centered, ball in the middle.
    pub fn new() -> (r: Game)
        ensures
            r.wf(),
            r.game_state == GameState::MainMenu,
            r.game_mode == GameMode::Footy,
            r.difficulty == Difficulty::Multiplayer,
            r.score1 == 0,
            r.score2 == 0,
            r.player1 == (Player { x: LEFT_PADDLE_COL, y: START_ROW, prev_y: START_ROW, max_velocity: 1 }),
            r.player2 == (Player { x: RIGHT_PADDLE_COL, y: START_ROW, prev_y: START_ROW, max_velocity: 3 }),
            r.ball == (Ball { x: CENTER_COL, y: CENTER_ROW, x_velocity: 1, y_velocity: 1, prev_x: CENTER_COL, prev_y: CENTER_ROW }),
            r.screen@ == filled(blank_cell()),
    {
        Game {
            player1: Player::new(LEFT_PADDLE_COL, START_ROW, 1),
            player2: Player::new(RIGHT_PADDLE_COL, START_ROW, 3),
            ball: Ball::new(CENTER_COL, CENTER_ROW, 1, 1),
            score1: 0,
            score2: 0,
            game_mode: GameMode::Footy,
            game_state: GameState::MainMenu,
            difficulty: Difficulty::Multiplayer,
            screen: Screen::new(),
        }
    }

    /// Handles one key press; the grid is left as it is.
    pub fn key(&mut self, key: DecodedKey)
        requires
            old(self).wf(),
        ensures
            final(self).wf(),
            final(self)@ == key_step(old(self)@, key),
            final(self).screen@ == old(self).screen@,
    {
        match key {
            DecodedKey::RawKey(code) => {
                match code {
                    KeyCode::ArrowUp => {
                        self.player2.move_up();
                    },
                    KeyCode::ArrowDown => {
                        self.player2.move_down();
                    },
                    KeyCode::Enter => {
                        if let GameState::MainMenu = self.game_state {
                            self.game_state = GameState::SelectGameMode;
                        }
                    },
                    KeyCode::Other => {},
                }
            },
            DecodedKey::Unicode(c) => {
                if c == 'm' {
                    self.go_main_menu();
                } else if c == 'w' {
                    self.player1.move_up();
                } else if c == 's' {
                    self.player1.move_down();
                } else if c == 'r' {
                    self.restart_game();
                } else if c == '\n' || c == '\r' {
                    if let GameState::MainMenu = self.game_state {
                        self.game_state = GameState::SelectGameMode;
                    }
                } else if c == 'f' || c == 'h' || c == 't' {
                    if let GameState::SelectGameMode = self.game_state {
                        self.game_mode = if c == 'f' {
                            GameMode::Footy
                        } else if c == 'h' {
                            GameMode::Hockey
                        } else {
                            GameMode::Tennis
                        };
                        self.game_state = GameState::DifficultySelect;
                    }
                } else if c == '0' || c == '1' || c == '2' || c == '3' {
                    if let GameState::DifficultySelect = self.game_state {
                        self.difficulty = if c == '0' {
                            Difficulty::Multiplayer
                        } else if c == '1' {
                            Difficulty::Easy
                        } else if c == '2' {
                            Difficulty::Medium
                        } else {
                            Difficulty::Hard
                        };
                        self.game_state = GameState::Playing;
                    }
                }
            },
        }
    }

    /// Once the round is over, starts a new one: paddles centered, ball
    /// served from the middle, score cleared.
    fn restart_game(&mut self)
        requires
            old(self).wf(),
        ensures
            final(self).wf(),
            final(self).screen@ == old(self).screen@,
            final(self).game_mode == old(self).game_mode,
            final(self).difficulty == old(self).difficulty,
            old(self).game_state == GameState::GameOver ==> {
                &&& final(self).game_state == GameState::Playing
                &&& final(self).player1 == at_row(old(self).player1, START_ROW as int)
                &&& final(self).player2 == at_row(old(self).player2, START_ROW as int)
                &&& final(self).ball == served(old(self).ball, CENTER_COL as int, CENTER_ROW as int, 1, 1)
                &&& final(self).score1 == 0
                &&& final(self).score2 == 0
            },
            old(self).game_state != GameState::GameOver ==> final(self)@ == old(self)@,
    {
        if let GameState::GameOver = self.game_state {
            self.player1.y = START_ROW;
            self.player2.y = START_ROW;
            self.ball.reset(CENTER_COL, CENTER_ROW, 1, 1);
            self.score1 = 0;
            self.score2 = 0;
            self.game_state = GameState::Playing;
        }
    }

    /// Once the round is over, goes back to the main menu with the game reset.
    fn go_main_menu(&mut self)
        requires
            old(self).wf(),
        ensures
            final(self).wf(),
            final(self).screen@ == old(self).screen@,
            final(self).game_mode == old(self).game_mode,
            final(self).difficulty == old(self).difficulty,
            old(self).game_state == GameState::GameOver ==> {
                &&& final(self).game_state == GameState::MainMenu
                &&& final(self).player1 == at_row(old(self).player1, START_ROW as int)
                &&& final(self).player2 == at_row(old(self).player2, START_ROW as int)
                &&& final(self).ball == served(old(self).ball, CENTER_COL as int, CENTER_ROW as int, 1, 1)
                &&& final(self).score1 == 0
                &&& final(self).score2 == 0
            },
            old(self).game_state != GameState::GameOver ==> final(self)@ == old(self)@,
    {
        if let GameState::GameOver = self.game_state {
            self.restart_game();
            self.game_state = GameState::MainMenu;
        }
    }

    /// One tick: a menu or the end-of-round screen is drawn afresh; during
    /// play the CPU moves, the frame is drawn, the ball moves, bounces and
    /// scores, and the round ends at the winning score.
    pub fn tick(&mut self)
        requires
            old(self).wf(),
        ensures
            final(self).wf(),
            final(self)@ == tick_step(old(self)@),
            final(self).screen@ == tick_frame(old(self)@),
    {
        match self.game_state {
            GameState::MainMenu => {
                self.clear_screen();
                self.display_main_menu();
            },
            GameState::SelectGameMode => {
                self.clear_screen();
                self.display_game_mode_menu();
            },
            GameState::DifficultySelect => {
                self.clear_screen();
                self.display_difficulty_menu();
            },
            GameState::Playing => {
                self.cpu_move();
                let background_color = background_of(self.game_mode);
                self.clear_screen_playing(background_color);
                match self.game_mode {
                    GameMode::Footy => {
                        self.draw_soccer_field();
                    },
                    GameMode::Tennis => {
                        self.draw_tennis_court();
                    },
                    GameMode::Hockey => {
                        self.draw_hockey_rink();
                    },
                }
                self.render();
                let ball_color = ball_color_of(self.game_mode);
                self.ball.update_position(&mut self.screen, ball_color, background_color);
                self.handle_collisions();
                let winner = self.check_for_winner();
                if winner != 0 {
                    self.display_winner_message(winner);
                    self.game_state = GameState::GameOver;
                }
            },
            GameState::GameOver => {
                self.clear_screen();
                let winner = self.check_for_winner();
                self.display_winner_message(winner);
            },
        }
    }

    /// One pass of the host's service loop: the pending key, if any, is
    /// handled first; then one tick runs when the tick counter has moved past
    /// `last_tick`, however many ticks have elapsed. Returns the tick count
    /// that has now been serviced.
    pub fn service(&mut self, pending: Option<DecodedKey>, current_tick: usize, last_tick: usize) -> (r: usize)
        requires
            old(self).wf(),
        ensures
            final(self).wf(),
            ({
                let keyed = match pending {
                    Some(k) => key_step(old(self)@, k),
                    None => old(self)@,
                };
                &&& current_tick > last_tick ==> {
                    &&& final(self)@ == tick_step(keyed)
                    &&& final(self).screen@ == tick_frame(keyed)
                    &&& r == current_tick
                }
                &&& current_tick <= last_tick ==> {
                    &&& final(self)@ == keyed
                    &&& final(self).screen@ == old(self).screen@
                    &&& r == last_tick
                }
            }),
    {
        if let Some(key) = pending {
            self.key(key);
        }
        if current_tick > last_tick {
            self.tick();
            current_tick
        } else {
            last_tick
        }
    }

    /// Moves the right paddle one CPU step towards the ball's row.
    fn cpu_move(&mut self)
        requires
            old(self).wf(),
        ensures
            final(self).wf(),
            final(self)@ == cpu_step(old(self)@),
            final(self).screen@ == old(self).screen@,
    {
        let ball_y = self.ball.y as isize;
        let player2_y = self.player2.y as isize;
        let player2_max_velocity = self.player2.max_velocity as isize;
        let velocity: isize = match self.difficulty {
            Difficulty::Multiplayer => 0,
            Difficulty::Easy => 1,
            Difficulty::Medium => 2,
            Difficulty::Hard => 3,
        };
        if velocity > 0 {
            let distance = ball_y - player2_y;
            let direction: isize = if distance > 0 {
                1
            } else if distance < 0 {
                -1
            } else {
                0
            };
            let step = velocity * direction;
            let move_amount = if step < player2_max_velocity { step } else { player2_max_velocity };
            let moved = player2_y + move_amount;
            let top = (HEIGHT - PADDLE_HEIGHT) as isize;
            let row = if moved < 0 {
                0
            } else if moved > top {
                top
            } else {
                moved
            };
            self.player2.y = row as usize;
        }
    }

    /// Bounces the ball off the walls and paddles and counts a point when it
    /// reaches either edge.
    fn handle_collisions(&mut self)
        requires
            old(self).player1.wf(),
            old(self).player2.wf(),
            old(self).game_state == GameState::Playing,
            old(self).score1 < WIN_SCORE,
            old(self).score2 < WIN_SCORE,
            old(self).screen.wf(),
            old(self).ball.x < WIDTH,
            old(self).ball.y <= HEIGHT,
            old(self).ball.x_velocity == 1 || old(self).ball.x_velocity == -1,
            -1 <= old(self).ball.y_velocity <= 1,
        ensures
            final(self)@ == collide_step(old(self)@),
            final(self).screen@ == old(self).screen@,
            final(self).screen.wf(),
    {
        let ball_x = self.ball.x as isize;
        let ball_y = self.ball.y as isize;
        let ball_x_velocity = self.ball.x_velocity;
        let ball_y_velocity = self.ball.y_velocity;
        let speed_x: isize = if ball_x_velocity < 0 { -ball_x_velocity } else { ball_x_velocity };

        if ball_y <= 0 || ball_y >= (HEIGHT - 1) as isize {
            self.ball.change_direction(ball_x_velocity, -ball_y_velocity);
        }
        if ball_x == self.player1.x as isize && ball_y >= self.player1.y as isize
            && ball_y < (self.player1.y + PADDLE_HEIGHT) as isize {
            let d = ball_y - self.player1.y as isize;
            self.ball.change_direction(speed_x, if d > 0 { 1 } else if d < 0 { -1 } else { 0 });
        }
        if ball_x == self.player2.x as isize && ball_y >= self.player2.y as isize
            && ball_y < (self.player2.y + PADDLE_HEIGHT) as isize {
            let d = ball_y - self.player2.y as isize;
            self.ball.change_direction(-speed_x, if d > 0 { 1 } else if d < 0 { -1 } else { 0 });
        }
        if ball_x >= (WIDTH - 1) as isize {
            self.score1 += 1;
            if self.score1 == WIN_SCORE {
                self.game_state = GameState::GameOver;
            } else {
                self.ball.reset(CENTER_COL, CENTER_ROW, -1, 1);
            }
        }
        if ball_x <= 0 {
            self.score2 += 1;
            if self.score2 == WIN_SCORE {
                self.game_state = GameState::GameOver;
            } else {
                self.ball.reset(CENTER_COL, CENTER_ROW, 1, 1);
            }
        }
    }

    /// 1 when the left side has reached the winning score, else 2 when the
    /// right side has, else 0.
    pub fn check_for_winner(&self) -> (r: u8)
        ensures
            r == winner_of(self.score1 as int, self.score2 as int),
    {
        if self.score1 >= WIN_SCORE {
            1
        } else if self.score2 >= WIN_SCORE {
            2
        } else {
            0
        }
    }
}

} // verus!
