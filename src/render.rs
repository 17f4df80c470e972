use vstd::prelude::*;

use crate::game::{
    cpu_step, drawn_step, move_step, tick_step, winner_of, Game, GameMode, GameState, GameView,
};
use crate::paddle_ball::{with_cell_if_on_grid, PADDLE_HEIGHT};
use crate::screen::{
    blank_cell, centered_col, digits, filled, with_hrun, with_text, with_vrun, Cell, Color, HEIGHT,
    WIDTH,
};

verus! {

/// Row of a menu's heading; the choices start two rows below it.
pub const MENU_ROW: usize = HEIGHT / 2 - 2;

/// Row of the score line and the columns of the two scores.
pub const SCORE_ROW: usize = 1;

pub const LEFT_SCORE_COL: usize = 30;

pub const RIGHT_SCORE_COL: usize = 50;

/// Background of the field for each sport.
pub open spec fn background(m: GameMode) -> Color {
    match m {
        GameMode::Footy => Color::Green,
        GameMode::Hockey => Color::White,
        GameMode::Tennis => Color::Blue,
    }
}

/// Color of the left paddle and of its score.
pub open spec fn left_color(m: GameMode) -> Color {
    match m {
        GameMode::Footy => Color::Blue,
        GameMode::Hockey => Color::Blue,
        GameMode::Tennis => Color::Yellow,
    }
}

pub open spec fn ball_color(m: GameMode) -> Color {
    match m {
        GameMode::Footy => Color::White,
        GameMode::Hockey => Color::Black,
        GameMode::Tennis => Color::Green,
    }
}

/// The right paddle and its score are always red.
pub open spec fn right_color() -> Color {
    Color::Red
}

pub fn background_of(m: GameMode) -> (r: Color)
    ensures
        r == background(m),
{
    match m {
        GameMode::Footy => Color::Green,
        GameMode::Hockey => Color::White,
        GameMode::Tennis => Color::Blue,
    }
}

pub fn left_color_of(m: GameMode) -> (r: Color)
    ensures
        r == left_color(m),
{
    match m {
        GameMode::Footy => Color::Blue,
        GameMode::Hockey => Color::Blue,
        GameMode::Tennis => Color::Yellow,
    }
}

pub fn ball_color_of(m: GameMode) -> (r: Color)
    ensures
        r == ball_color(m),
{
    match m {
        GameMode::Footy => Color::White,
        GameMode::Hockey => Color::Black,
        GameMode::Tennis => Color::Green,
    }
}

/// `cells` with `s` centered on `row`, in `fg` on black.
pub open spec fn centered(cells: Seq<Cell>, s: Seq<char>, row: int, fg: Color) -> Seq<Cell> {
    with_text(cells, s, centered_col(s.len()), row, fg, Color::Black)
}

pub open spec fn main_menu_text(cells: Seq<Cell>) -> Seq<Cell> {
    let a = centered(cells, "FOOTY-PONG"@, MENU_ROW as int, Color::Yellow);
    centered(a, "Press ENTER to start"@, HEIGHT / 2 + 1, Color::White)
}

pub open spec fn mode_menu_text(cells: Seq<Cell>) -> Seq<Cell> {
    let a = centered(cells, "Select Game Mode:"@, MENU_ROW as int, Color::Yellow);
    let b = centered(a, "[F]ooty "@, MENU_ROW + 2, Color::White);
    let c = centered(b, "[H]ockey"@, MENU_ROW + 3, Color::White);
    centered(c, "[T]ennis"@, MENU_ROW + 4, Color::White)
}

pub open spec fn difficulty_menu_text(cells: Seq<Cell>) -> Seq<Cell> {
    let a = centered(cells, "Select Difficulty:"@, MENU_ROW as int, Color::Yellow);
    let b = centered(a, "[0] Multiplayer"@, MENU_ROW + 2, Color::White);
    let c = centered(b, "[1] Easy       "@, MENU_ROW + 3, Color::White);
    let d = centered(c, "[2] Medium     "@, MENU_ROW + 4, Color::White);
    centered(d, "[3] Hard       "@, MENU_ROW + 5, Color::White)
}

/// The end-of-round message: who won, then the two choices.
pub open spec fn winner_text(cells: Seq<Cell>, left_won: bool) -> Seq<Cell> {
    let msg = if left_won { "Player 1 WINS!"@ } else { "Player 2 WINS!"@ };
    let a = centered(cells, msg, MENU_ROW as int, Color::Yellow);
    let b = centered(a, "[M]ain Menu"@, MENU_ROW + 2, Color::White);
    centered(b, "[R]estart"@, MENU_ROW + 4, Color::White)
}

/// The grid each menu shows: a cleared screen with the menu's text.
pub open spec fn main_menu_frame() -> Seq<Cell> {
    main_menu_text(filled(blank_cell()))
}

pub open spec fn mode_menu_frame() -> Seq<Cell> {
    mode_menu_text(filled(blank_cell()))
}

pub open spec fn difficulty_menu_frame() -> Seq<Cell> {
    difficulty_menu_text(filled(blank_cell()))
}

/// The four edges of the field.
pub open spec fn border(cells: Seq<Cell>, side: Cell, edge: Cell) -> Seq<Cell> {
    let w = WIDTH as int;
    let h = HEIGHT as int;
    let a = with_vrun(with_vrun(cells, 0, 0, h as nat, side), w - 1, 0, h as nat, side);
    with_hrun(with_hrun(a, 0, 0, w as nat, edge), 0, h - 1, w as nat, edge)
}

/// Border, halfway line, and a penalty box at each end.
pub open spec fn soccer_field(cells: Seq<Cell>) -> Seq<Cell> {
    let w = WIDTH as int;
    let h = HEIGHT as int;
    let side = Cell { glyph: '|' as u8, fg: Color::White, bg: Color::Green };
    let edge = Cell { glyph: '-' as u8, fg: Color::White, bg: Color::Green };
    let box_width = w / 6;
    let box_height = (3 * h) / 4;
    let top = (h - box_height) / 2;
    let bottom = top + box_height;
    let a = with_vrun(border(cells, side, edge), w / 2, 0, h as nat, side);
    let b = with_vrun(a, box_width, top, (bottom - top + 1) as nat, side);
    let c = with_hrun(with_hrun(b, 0, top, (box_width + 1) as nat, edge), 0, bottom, (box_width + 1) as nat, edge);
    let d = with_vrun(c, w - box_width - 1, top, (bottom - top + 1) as nat, side);
    with_hrun(with_hrun(d, w - box_width, top, box_width as nat, edge), w - box_width, bottom, box_width as nat, edge)
}

/// Border, doubles alleys, service line, service boxes and the net.
pub open spec fn tennis_court(cells: Seq<Cell>) -> Seq<Cell> {
    let w = WIDTH as int;
    let h = HEIGHT as int;
    let side = Cell { glyph: '|' as u8, fg: Color::White, bg: Color::Blue };
    let edge = Cell { glyph: '-' as u8, fg: Color::White, bg: Color::Blue };
    let a = with_hrun(with_hrun(border(cells, side, edge), 0, 2, w as nat, edge), 0, h - 3, w as nat, edge);
    let b = with_hrun(a, w / 4, h / 2, (w * 3 / 4 - w / 4) as nat, edge);
    let c = with_vrun(with_vrun(b, w / 4, 3, (h - 6) as nat, side), w * 3 / 4, 3, (h - 6) as nat, side);
    with_vrun(c, w / 2, 0, h as nat, side)
}

/// Border, two blue lines and the red center line.
pub open spec fn hockey_rink(cells: Seq<Cell>) -> Seq<Cell> {
    let w = WIDTH as int;
    let h = HEIGHT as int;
    let line = Cell { glyph: '|' as u8, fg: Color::Blue, bg: Color::White };
    let edge = Cell { glyph: '-' as u8, fg: Color::Blue, bg: Color::White };
    let red = Cell { glyph: '|' as u8, fg: Color::Red, bg: Color::White };
    let a = with_vrun(with_vrun(border(cells, line, edge), w / 4, 0, h as nat, line), w * 3 / 4, 0, h as nat, line);
    with_vrun(a, w / 2, 0, h as nat, red)
}

pub open spec fn field(m: GameMode, cells: Seq<Cell>) -> Seq<Cell> {
    match m {
        GameMode::Footy => soccer_field(cells),
        GameMode::Hockey => hockey_rink(cells),
        GameMode::Tennis => tennis_court(cells),
    }
}

/// Both scores on the score line.
pub open spec fn score_text(cells: Seq<Cell>, m: GameMode, score1: u32, score2: u32) -> Seq<Cell> {
    let a = with_text(cells, digits(score1 as nat), LEFT_SCORE_COL as int, SCORE_ROW as int, left_color(m), background(m));
    with_text(a, digits(score2 as nat), RIGHT_SCORE_COL as int, SCORE_ROW as int, right_color(), background(m))
}

/// Both paddles erased where they were last drawn and drawn where they are.
pub open spec fn paddles_drawn(cells: Seq<Cell>, v: GameView) -> Seq<Cell> {
    let bg = background(v.game_mode);
    let n = PADDLE_HEIGHT as nat;
    let p1 = v.player1;
    let p2 = v.player2;
    let l = left_color(v.game_mode);
    let r = right_color();
    let a = with_vrun(cells, p1.x as int, p1.prev_y as int, n, Cell { glyph: ' ' as u8, fg: l, bg });
    let b = with_vrun(a, p1.x as int, p1.y as int, n, Cell { glyph: '#' as u8, fg: l, bg });
    let c = with_vrun(b, p2.x as int, p2.prev_y as int, n, Cell { glyph: ' ' as u8, fg: r, bg });
    with_vrun(c, p2.x as int, p2.y as int, n, Cell { glyph: '#' as u8, fg: r, bg })
}

/// The ball erased at `(px, py)` and drawn at `(x, y)`, where those are on the grid.
pub open spec fn ball_drawn(cells: Seq<Cell>, px: int, py: int, x: int, y: int, m: GameMode) -> Seq<Cell> {
    let a = with_cell_if_on_grid(cells, px, py, Cell { glyph: ' ' as u8, fg: Color::Black, bg: background(m) });
    with_cell_if_on_grid(a, x, y, Cell { glyph: '@' as u8, fg: ball_color(m), bg: background(m) })
}

/// The grid after a tick of play from `v`: the field cleared and decorated,
/// paddles, scores and ball drawn, and the end-of-round message on top when
/// the round has just ended.
pub open spec fn playing_frame(v: GameView) -> Seq<Cell> {
    let a = cpu_step(v);
    let m = v.game_mode;
    let s1 = field(m, filled(Cell { glyph: ' ' as u8, fg: Color::Black, bg: background(m) }));
    let s2 = score_text(paddles_drawn(s1, a), m, a.score1, a.score2);
    let b = move_step(drawn_step(a)).ball;
    let s3 = ball_drawn(s2, a.ball.prev_x as int, a.ball.prev_y as int, b.x as int, b.y as int, m);
    let e = tick_step(v);
    if e.game_state == GameState::GameOver {
        winner_text(s3, winner_of(e.score1 as int, e.score2 as int) == 1)
    } else {
        s3
    }
}

/// The grid after a tick from `v`: each menu and the end of a round draw on
/// a cleared screen; play draws its own frame.
pub open spec fn tick_frame(v: GameView) -> Seq<Cell> {
    match v.game_state {
        GameState::MainMenu => main_menu_frame(),
        GameState::SelectGameMode => mode_menu_frame(),
        GameState::DifficultySelect => difficulty_menu_frame(),
        GameState::Playing => playing_frame(v),
        GameState::GameOver => winner_text(filled(blank_cell()), winner_of(v.score1 as int, v.score2 as int) == 1),
    }
}

/// Drawing a menu again with nothing changed in between gives the same grid:
/// a tick at a menu changes no state, and the menu's frame does not depend on
/// what was on the grid before.
pub proof fn lemma_menu_redraw_same(v: GameView)
    requires
        v.game_state == GameState::MainMenu || v.game_state == GameState::SelectGameMode
            || v.game_state == GameState::DifficultySelect,
    ensures
        tick_step(v) == v,
        tick_frame(tick_step(v)) == tick_frame(v),
{
}

impl Game {
    /// Every cell blank and black.
    pub(crate) fn clear_screen(&mut self)
        requires
            old(self).wf(),
        ensures
            final(self).wf(),
            final(self)@ == old(self)@,
            final(self).screen@ == filled(blank_cell()),
    {
        self.screen.fill(' ', Color::Black, Color::Black);
    }

    /// Every cell blank on the field's background.
    pub(crate) fn clear_screen_playing(&mut self, background_color: Color)
        requires
            old(self).wf(),
        ensures
            final(self).wf(),
            final(self)@ == old(self)@,
            final(self).screen@ == filled(Cell { glyph: ' ' as u8, fg: Color::Black, bg: background_color }),
    {
        self.screen.fill(' ', Color::Black, background_color);
    }

    pub(crate) fn display_main_menu(&mut self)
        requires
            old(self).wf(),
        ensures
            final(self).wf(),
            final(self)@ == old(self)@,
            final(self).screen@ == main_menu_text(old(self).screen@),
    {
        self.screen.draw_centered("FOOTY-PONG", MENU_ROW, Color::Yellow, Color::Black);
        self.screen.draw_centered("Press ENTER to start", HEIGHT / 2 + 1, Color::White, Color::Black);
    }

    pub(crate) fn display_game_mode_menu(&mut self)
        requires
            old(self).wf(),
        ensures
            final(self).wf(),
            final(self)@ == old(self)@,
            final(self).screen@ == mode_menu_text(old(self).screen@),
    {
        self.screen.draw_centered("Select Game Mode:", MENU_ROW, Color::Yellow, Color::Black);
        self.screen.draw_centered("[F]ooty ", MENU_ROW + 2, Color::White, Color::Black);
        self.screen.draw_centered("[H]ockey", MENU_ROW + 3, Color::White, Color::Black);
        self.screen.draw_centered("[T]ennis", MENU_ROW + 4, Color::White, Color::Black);
    }

    pub(crate) fn display_difficulty_menu(&mut self)
        requires
            old(self).wf(),
        ensures
            final(self).wf(),
            final(self)@ == old(self)@,
            final(self).screen@ == difficulty_menu_text(old(self).screen@),
    {
        self.screen.draw_centered("Select Difficulty:", MENU_ROW, Color::Yellow, Color::Black);
        self.screen.draw_centered("[0] Multiplayer", MENU_ROW + 2, Color::White, Color::Black);
        self.screen.draw_centered("[1] Easy       ", MENU_ROW + 3, Color::White, Color::Black);
        self.screen.draw_centered("[2] Medium     ", MENU_ROW + 4, Color::White, Color::Black);
        self.screen.draw_centered("[3] Hard       ", MENU_ROW + 5, Color::White, Color::Black);
    }

    /// Who won, and the keys for the main menu and a new round.
    pub(crate) fn display_winner_message(&mut self, winner: u8)
        requires
            old(self).screen.wf(),
        ensures
            final(self).screen.wf(),
            final(self)@ == old(self)@,
            final(self).screen@ == winner_text(old(self).screen@, winner == 1),
    {
        let winner_message = if winner == 1 { "Player 1 WINS!" } else { "Player 2 WINS!" };
        self.screen.draw_centered(winner_message, MENU_ROW, Color::Yellow, Color::Black);
        self.screen.draw_centered("[M]ain Menu", MENU_ROW + 2, Color::White, Color::Black);
        self.screen.draw_centered("[R]estart", MENU_ROW + 4, Color::White, Color::Black);
    }
    /// Draws the field's four edges.
    fn draw_border(&mut self, side_fg: Color, bg: Color)
        requires
            old(self).wf(),
        ensures
            final(self).wf(),
            final(self)@ == old(self)@,
            final(self).screen@ == border(
                old(self).screen@,
                Cell { glyph: '|' as u8, fg: side_fg, bg },
                Cell { glyph: '-' as u8, fg: side_fg, bg },
            ),
    {
        self.screen.draw_vrun('|', 0, 0, HEIGHT, side_fg, bg);
        self.screen.draw_vrun('|', WIDTH - 1, 0, HEIGHT, side_fg, bg);
        self.screen.draw_hrun('-', 0, 0, WIDTH, side_fg, bg);
        self.screen.draw_hrun('-', 0, HEIGHT - 1, WIDTH, side_fg, bg);
    }

    /// Draws a soccer pitch: border, halfway line, penalty boxes.
    pub fn draw_soccer_field(&mut self)
        requires
            old(self).wf(),
        ensures
            final(self).wf(),
            final(self)@ == old(self)@,
            final(self).screen@ == soccer_field(old(self).screen@),
    {
        let fg = Color::White;
        let bg = Color::Green;
        self.draw_border(fg, bg);
        let halfway_x = WIDTH / 2;
        self.screen.draw_vrun('|', halfway_x, 0, HEIGHT, fg, bg);
        let box_width = WIDTH / 6;
        let box_height = (3 * HEIGHT) / 4;
        let top_y = (HEIGHT - box_height) / 2;
        let bottom_y = top_y + box_height;
        self.screen.draw_vrun('|', box_width, top_y, bottom_y - top_y + 1, fg, bg);
        self.screen.draw_hrun('-', 0, top_y, box_width + 1, fg, bg);
        self.screen.draw_hrun('-', 0, bottom_y, box_width + 1, fg, bg);
        self.screen.draw_vrun('|', WIDTH - box_width - 1, top_y, bottom_y - top_y + 1, fg, bg);
        self.screen.draw_hrun('-', WIDTH - box_width, top_y, box_width, fg, bg);
        self.screen.draw_hrun('-', WIDTH - box_width, bottom_y, box_width, fg, bg);
    }

    /// Draws a tennis court: border, alleys, service line and boxes, net.
    pub fn draw_tennis_court(&mut self)
        requires
            old(self).wf(),
        ensures
            final(self).wf(),
            final(self)@ == old(self)@,
            final(self).screen@ == tennis_court(old(self).screen@),
    {
        let fg = Color::White;
        let bg = Color::Blue;
        self.draw_border(fg, bg);
        self.screen.draw_hrun('-', 0, 2, WIDTH, fg, bg);
        self.screen.draw_hrun('-', 0, HEIGHT - 3, WIDTH, fg, bg);
        let horizontal_y = HEIGHT / 2;
        self.screen.draw_hrun('-', WIDTH / 4, horizontal_y, WIDTH * 3 / 4 - WIDTH / 4, fg, bg);
        let vertical_x1 = WIDTH / 4;
        let vertical_x3 = WIDTH * 3 / 4;
        self.screen.draw_vrun('|', vertical_x1, 3, HEIGHT - 6, fg, bg);
        self.screen.draw_vrun('|', vertical_x3, 3, HEIGHT - 6, fg, bg);
        self.screen.draw_vrun('|', WIDTH / 2, 0, HEIGHT, fg, bg);
    }

    /// Draws a hockey rink: border, two blue lines, red center line.
    pub fn draw_hockey_rink(&mut self)
        requires
            old(self).wf(),
        ensures
            final(self).wf(),
            final(self)@ == old(self)@,
            final(self).screen@ == hockey_rink(old(self).screen@),
    {
        let bg = Color::White;
        self.draw_border(Color::Blue, bg);
        let vertical_x1 = WIDTH / 4;
        let vertical_x2 = WIDTH / 2;
        let vertical_x3 = WIDTH * 3 / 4;
        self.screen.draw_vrun('|', vertical_x1, 0, HEIGHT, Color::Blue, bg);
        self.screen.draw_vrun('|', vertical_x3, 0, HEIGHT, Color::Blue, bg);
        self.screen.draw_vrun('|', vertical_x2, 0, HEIGHT, Color::Red, bg);
    }
    /// Draws both paddles and the score.
    pub(crate) fn render(&mut self)
        requires
            old(self).wf(),
        ensures
            final(self).wf(),
            final(self)@ == drawn_step(old(self)@),
            final(self).screen@ == score_text(
                paddles_drawn(old(self).screen@, old(self)@),
                old(self).game_mode,
                old(self).score1,
                old(self).score2,
            ),
    {
        let bg = background_of(self.game_mode);
        let p1_color = left_color_of(self.game_mode);
        self.player1.render(&mut self.screen, p1_color, bg);
        self.player2.render(&mut self.screen, Color::Red, bg);
        self.display_score();
    }

    /// Draws both scores on the score line.
    pub(crate) fn display_score(&mut self)
        requires
            old(self).screen.wf(),
        ensures
            final(self).screen.wf(),
            final(self)@ == old(self)@,
            final(self).screen@ == score_text(old(self).screen@, old(self).game_mode, old(self).score1, old(self).score2),
    {
        let score_color = background_of(self.game_mode);
        let p1_color = left_color_of(self.game_mode);
        self.screen.draw_number(self.score1, LEFT_SCORE_COL, SCORE_ROW, p1_color, score_color);
        self.screen.draw_number(self.score2, RIGHT_SCORE_COL, SCORE_ROW, Color::Red, score_color);
    }
}

} // verus!
