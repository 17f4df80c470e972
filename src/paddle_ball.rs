use vstd::prelude::*;

use crate::screen::{on_grid, with_cell, with_vrun, Cell, Color, Screen, HEIGHT, WIDTH};

verus! {

/// Number of rows a paddle covers.
pub const PADDLE_HEIGHT: usize = 5;

/// Highest row the top of a paddle may reach.
pub open spec fn max_paddle_row() -> int {
    HEIGHT - PADDLE_HEIGHT
}

/// `cells` with `(col, row)` set to `c` when that cell is on the grid.
pub open spec fn with_cell_if_on_grid(cells: Seq<Cell>, col: int, row: int, c: Cell) -> Seq<Cell> {
    if on_grid(col, row) {
        with_cell(cells, col, row, c)
    } else {
        cells
    }
}

/// A vertical paddle: `x` is its column, `y` its top row.
pub struct Player {
    pub x: usize,
    pub y: usize,
    pub prev_y: usize,
    pub max_velocity: usize,
}

impl Player {
    /// The paddle stays on the grid.
    pub open spec fn wf(&self) -> bool {
        self.x < WIDTH && self.y <= max_paddle_row() && self.prev_y <= max_paddle_row()
    }

    pub fn new(x: usize, y: usize, max_velocity: usize) -> (r: Player)
        ensures
            r.x == x,
            r.y == y,
            r.prev_y == y,
            r.max_velocity == max_velocity,
    {
        Player { x, y, prev_y: y, max_velocity }
    }

    /// One row up, unless already at the top.
    pub fn move_up(&mut self)
        ensures
            final(self).y == if old(self).y > 0 { old(self).y - 1 } else { old(self).y as int },
            final(self).x == old(self).x,
            final(self).prev_y == old(self).prev_y,
            final(self).max_velocity == old(self).max_velocity,
    {
        if self.y > 0 {
            self.y -= 1;
        }
    }

    /// One row down, unless the paddle already touches the bottom.
    pub fn move_down(&mut self)
        ensures
            final(self).y == if old(self).y < max_paddle_row() { old(self).y + 1 } else { old(self).y as int },
            final(self).x == old(self).x,
            final(self).prev_y == old(self).prev_y,
            final(self).max_velocity == old(self).max_velocity,
    {
        if self.y < HEIGHT - PADDLE_HEIGHT {
            self.y += 1;
        }
    }

    /// Erases the paddle where it was last drawn, draws it where it is now,
    /// and remembers the new place.
    pub fn render(&mut self, screen: &mut Screen, fg: Color, bg: Color)
        requires
            old(self).wf(),
            old(screen).wf(),
        ensures
            final(screen).wf(),
            final(screen)@ == with_vrun(
                with_vrun(old(screen)@, old(self).x as int, old(self).prev_y as int, PADDLE_HEIGHT as nat,
                    Cell { glyph: ' ' as u8, fg, bg }),
                old(self).x as int,
                old(self).y as int,
                PADDLE_HEIGHT as nat,
                Cell { glyph: '#' as u8, fg, bg },
            ),
            final(self).prev_y == old(self).y,
            final(self).x == old(self).x,
            final(self).y == old(self).y,
            final(self).max_velocity == old(self).max_velocity,
    {
        screen.draw_vrun(' ', self.x, self.prev_y, PADDLE_HEIGHT, fg, bg);
        screen.draw_vrun('#', self.x, self.y, PADDLE_HEIGHT, fg, bg);
        self.prev_y = self.y;
    }
}

/// The ball: its cell, its step per tick, and the cell where it was last drawn.
pub struct Ball {
    pub x: usize,
    pub y: usize,
    pub x_velocity: isize,
    pub y_velocity: isize,
    pub prev_x: usize,
    pub prev_y: usize,
}

impl Ball {
    pub fn new(x: usize, y: usize, x_velocity: isize, y_velocity: isize) -> (r: Ball)
        ensures
            r.x == x,
            r.y == y,
            r.x_velocity == x_velocity,
            r.y_velocity == y_velocity,
            r.prev_x == x,
            r.prev_y == y,
    {
        Ball { x, y, x_velocity, y_velocity, prev_x: x, prev_y: y }
    }

    /// Erases the ball where it was last drawn, moves it one step, and draws
    /// it at its new cell when that cell is on the grid.
    pub fn update_position(&mut self, screen: &mut Screen, ball_color: Color, bg: Color)
        requires
            old(screen).wf(),
            old(self).x <= isize::MAX,
            old(self).y <= isize::MAX,
            0 <= old(self).x + old(self).x_velocity <= isize::MAX,
            0 <= old(self).y + old(self).y_velocity <= isize::MAX,
        ensures
            final(screen).wf(),
            final(self).x == old(self).x + old(self).x_velocity,
            final(self).y == old(self).y + old(self).y_velocity,
            final(self).x_velocity == old(self).x_velocity,
            final(self).y_velocity == old(self).y_velocity,
            final(self).prev_x == final(self).x,
            final(self).prev_y == final(self).y,
            final(screen)@ == with_cell_if_on_grid(
                with_cell_if_on_grid(old(screen)@, old(self).prev_x as int, old(self).prev_y as int,
                    Cell { glyph: ' ' as u8, fg: Color::Black, bg }),
                final(self).x as int,
                final(self).y as int,
                Cell { glyph: '@' as u8, fg: ball_color, bg },
            ),
    {
        if self.prev_x < WIDTH && self.prev_y < HEIGHT {
            screen.plot(' ', self.prev_x, self.prev_y, Color::Black, bg);
        }
        self.x = (self.x as isize + self.x_velocity) as usize;
        self.y = (self.y as isize + self.y_velocity) as usize;
        if self.x < WIDTH && self.y < HEIGHT {
            screen.plot('@', self.x, self.y, ball_color, bg);
        }
        self.prev_x = self.x;
        self.prev_y = self.y;
    }

    pub fn change_direction(&mut self, x_velocity: isize, y_velocity: isize)
        ensures
            final(self).x_velocity == x_velocity,
            final(self).y_velocity == y_velocity,
            final(self).x == old(self).x,
            final(self).y == old(self).y,
            final(self).prev_x == old(self).prev_x,
            final(self).prev_y == old(self).prev_y,
    {
        self.x_velocity = x_velocity;
        self.y_velocity = y_velocity;
    }

    /// Puts the ball at `(x, y)` with the given step; the last drawn cell is kept.
    pub fn reset(&mut self, x: usize, y: usize, x_velocity: isize, y_velocity: isize)
        ensures
            final(self).x == x,
            final(self).y == y,
            final(self).x_velocity == x_velocity,
            final(self).y_velocity == y_velocity,
            final(self).prev_x == old(self).prev_x,
            final(self).prev_y == old(self).prev_y,
    {
        self.x = x;
        self.y = y;
        self.x_velocity = x_velocity;
        self.y_velocity = y_velocity;
    }
}

} // verus!
