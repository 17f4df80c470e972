use vstd::prelude::*;

verus! {

/// Number of columns of the character grid.
pub const WIDTH: usize = 80;

/// Number of rows of the character grid.
pub const HEIGHT: usize = 25;

/// The sixteen colors of a text-mode cell.
#[derive(Clone, Copy, Debug, PartialEq, Eq, Structural)]
pub enum Color {
    Black,
    Blue,
    Green,
    Cyan,
    Red,
    Magenta,
    Brown,
    LightGray,
    DarkGray,
    LightBlue,
    LightGreen,
    LightCyan,
    LightRed,
    Pink,
    Yellow,
    White,
}

/// One cell of the grid: a character byte with its foreground and background colors.
#[derive(Clone, Copy, Debug, PartialEq, Eq, Structural)]
pub struct Cell {
    pub glyph: u8,
    pub fg: Color,
    pub bg: Color,
}

/// The whole grid, stored row by row.
pub struct Screen {
    cells: Vec<Cell>,
}

pub open spec fn blank_cell() -> Cell {
    Cell { glyph: ' ' as u8, fg: Color::Black, bg: Color::Black }
}

/// Index of cell `(col, row)` in the row-major sequence of cells.
pub open spec fn index_of(col: int, row: int) -> int {
    row * WIDTH + col
}

pub open spec fn on_grid(col: int, row: int) -> bool {
    0 <= col < WIDTH && 0 <= row < HEIGHT
}

/// A grid whose every cell is `c`.
pub open spec fn filled(c: Cell) -> Seq<Cell> {
    Seq::new((WIDTH * HEIGHT) as nat, |k: int| c)
}

/// `cells` with `(col, row)` set to `c`.
pub open spec fn with_cell(cells: Seq<Cell>, col: int, row: int, c: Cell) -> Seq<Cell> {
    cells.update(index_of(col, row), c)
}

/// `cells` with `s` written from `(col, row)` rightwards, one cell per character;
/// characters that would fall past the right edge are cut.
pub open spec fn with_text(
    cells: Seq<Cell>,
    s: Seq<char>,
    col: int,
    row: int,
    fg: Color,
    bg: Color,
) -> Seq<Cell>
    decreases s.len(),
{
    if s.len() == 0 {
        cells
    } else {
        let rest = with_text(cells, s.drop_last(), col, row, fg, bg);
        if col + s.len() - 1 < WIDTH {
            with_cell(rest, col + s.len() - 1, row, Cell { glyph: s.last() as u8, fg, bg })
        } else {
            rest
        }
    }
}

/// Characters past the right edge change nothing.
proof fn lemma_text_cut(cells: Seq<Cell>, s: Seq<char>, n: int, col: int, row: int, fg: Color, bg: Color)
    requires
        0 <= n <= s.len(),
        n == s.len() || col + n >= WIDTH,
    ensures
        with_text(cells, s.subrange(0, n), col, row, fg, bg) == with_text(cells, s, col, row, fg, bg),
    decreases s.len() - n,
{
    if n < s.len() {
        lemma_text_cut(cells, s, n + 1, col, row, fg, bg);
        assert(s.subrange(0, n + 1).drop_last() =~= s.subrange(0, n));
    } else {
        assert(s.subrange(0, n) =~= s);
    }
}

/// `cells` with `n` cells set to `c` in column `col`, from `row` downwards.
pub open spec fn with_vrun(cells: Seq<Cell>, col: int, row: int, n: nat, c: Cell) -> Seq<Cell>
    decreases n,
{
    if n == 0 {
        cells
    } else {
        with_cell(with_vrun(cells, col, row, (n - 1) as nat, c), col, row + n - 1, c)
    }
}

/// `cells` with `n` cells set to `c` in row `row`, from `col` rightwards.
pub open spec fn with_hrun(cells: Seq<Cell>, col: int, row: int, n: nat, c: Cell) -> Seq<Cell>
    decreases n,
{
    if n == 0 {
        cells
    } else {
        with_cell(with_hrun(cells, col, row, (n - 1) as nat, c), col + n - 1, row, c)
    }
}

/// Column at which text of length `len` starts when centered: half the width
/// less half the length, and no less than zero.
pub open spec fn centered_col(len: nat) -> int {
    if len / 2 <= WIDTH / 2 {
        WIDTH / 2 - len / 2
    } else {
        0
    }
}

/// The decimal digit `d` as a character.
pub open spec fn digit_char(d: nat) -> char {
    if d == 0 { '0' }
    else if d == 1 { '1' }
    else if d == 2 { '2' }
    else if d == 3 { '3' }
    else if d == 4 { '4' }
    else if d == 5 { '5' }
    else if d == 6 { '6' }
    else if d == 7 { '7' }
    else if d == 8 { '8' }
    else { '9' }
}

/// The decimal digits of `n`, most significant first.
pub open spec fn digits(n: nat) -> Seq<char>
    decreases n,
{
    if n < 10 {
        seq![digit_char(n)]
    } else {
        digits(n / 10).push(digit_char(n % 10))
    }
}

fn digit_char_exec(d: u32) -> (c: char)
    requires
        d < 10,
    ensures
        c == digit_char(d as nat),
{
    if d == 0 { '0' }
    else if d == 1 { '1' }
    else if d == 2 { '2' }
    else if d == 3 { '3' }
    else if d == 4 { '4' }
    else if d == 5 { '5' }
    else if d == 6 { '6' }
    else if d == 7 { '7' }
    else if d == 8 { '8' }
    else { '9' }
}

fn digits_exec(n: u32) -> (r: Vec<char>)
    ensures
        r@ == digits(n as nat),
    decreases n,
{
    if n < 10 {
        vec![digit_char_exec(n)]
    } else {
        let mut r = digits_exec(n / 10);
        r.push(digit_char_exec(n % 10));
        r
    }
}

fn chars_of(s: &str) -> (r: Vec<char>)
    ensures
        r@ == s@,
{
    let n = s.unicode_len();
    let mut r: Vec<char> = Vec::new();
    let mut i: usize = 0;
    while i < n
        invariant
            n == s@.len(),
            i <= n,
            r@ == s@.subrange(0, i as int),
        decreases n - i,
    {
        r.push(s.get_char(i));
        i += 1;
    }
    assert(r@ =~= s@);
    r
}

impl View for Screen {
    type V = Seq<Cell>;

    closed spec fn view(&self) -> Seq<Cell> {
        self.cells@
    }
}

impl Screen {
    pub open spec fn wf(&self) -> bool {
        self@.len() == WIDTH * HEIGHT
    }

    /// A grid of blank black cells.
    pub fn new() -> (r: Screen)
        ensures
            r.wf(),
            r@ == filled(blank_cell()),
    {
        let cells = vec![Cell { glyph: ' ' as u8, fg: Color::Black, bg: Color::Black }; WIDTH * HEIGHT];
        let r = Screen { cells };
        assert(r@ =~= filled(blank_cell()));
        r
    }

    /// The cell at `(col, row)`.
    pub fn cell(&self, col: usize, row: usize) -> (r: Cell)
        requires
            self.wf(),
            on_grid(col as int, row as int),
        ensures
            r == self@[index_of(col as int, row as int)],
    {
        self.cells[row * WIDTH + col]
    }

    /// Sets the cell at `(col, row)`.
    pub fn plot(&mut self, glyph: char, col: usize, row: usize, fg: Color, bg: Color)
        requires
            old(self).wf(),
            on_grid(col as int, row as int),
        ensures
            final(self).wf(),
            final(self)@ == with_cell(old(self)@, col as int, row as int, Cell { glyph: glyph as u8, fg, bg }),
    {
        self.cells.set(row * WIDTH + col, Cell { glyph: glyph as u8, fg, bg });
    }
    /// Writes `s` from `(col, row)` rightwards; what would pass the right edge is cut.
    pub fn draw_chars(&mut self, s: &[char], col: usize, row: usize, fg: Color, bg: Color)
        requires
            old(self).wf(),
            row < HEIGHT,
        ensures
            final(self).wf(),
            final(self)@ == with_text(old(self)@, s@, col as int, row as int, fg, bg),
    {
        let n: usize = if col >= WIDTH {
            0
        } else if s.len() < WIDTH - col {
            s.len()
        } else {
            WIDTH - col
        };
        let mut i: usize = 0;
        while i < n
            invariant
                self.wf(),
                old(self).wf(),
                row < HEIGHT,
                i <= n,
                n <= s@.len(),
                n > 0 ==> col + n <= WIDTH,
                n == s@.len() || col + n >= WIDTH,
                self@ == with_text(old(self)@, s@.subrange(0, i as int), col as int, row as int, fg, bg),
            decreases n - i,
        {
            let ghost prev = self@;
            self.plot(s[i], col + i, row, fg, bg);
            proof {
                assert(s@.subrange(0, i + 1).drop_last() =~= s@.subrange(0, i as int));
            }
            i += 1;
        }
        proof {
            lemma_text_cut(old(self)@, s@, n as int, col as int, row as int, fg, bg);
        }
    }

    /// Writes the text `s` from `(col, row)` rightwards; what would pass the right edge is cut.
    pub fn draw_text(&mut self, s: &str, col: usize, row: usize, fg: Color, bg: Color)
        requires
            old(self).wf(),
            row < HEIGHT,
        ensures
            final(self).wf(),
            final(self)@ == with_text(old(self)@, s@, col as int, row as int, fg, bg),
    {
        let v = chars_of(s);
        self.draw_chars(v.as_slice(), col, row, fg, bg);
    }

    /// Writes `s` on `row`, centered horizontally.
    pub fn draw_centered(&mut self, s: &str, row: usize, fg: Color, bg: Color)
        requires
            old(self).wf(),
            row < HEIGHT,
        ensures
            final(self).wf(),
            final(self)@ == with_text(old(self)@, s@, centered_col(s@.len()), row as int, fg, bg),
    {
        let v = chars_of(s);
        let col = (WIDTH / 2).saturating_sub(v.len() / 2);
        self.draw_chars(v.as_slice(), col, row, fg, bg);
    }

    /// Writes `n` in decimal from `(col, row)` rightwards.
    pub fn draw_number(&mut self, n: u32, col: usize, row: usize, fg: Color, bg: Color)
        requires
            old(self).wf(),
            row < HEIGHT,
        ensures
            final(self).wf(),
            final(self)@ == with_text(old(self)@, digits(n as nat), col as int, row as int, fg, bg),
    {
        let v = digits_exec(n);
        self.draw_chars(v.as_slice(), col, row, fg, bg);
    }

    /// Sets `n` cells of column `col` to `glyph`, from `row` downwards.
    pub fn draw_vrun(&mut self, glyph: char, col: usize, row: usize, n: usize, fg: Color, bg: Color)
        requires
            old(self).wf(),
            col < WIDTH,
            row + n <= HEIGHT,
        ensures
            final(self).wf(),
            final(self)@ == with_vrun(old(self)@, col as int, row as int, n as nat,
                Cell { glyph: glyph as u8, fg, bg }),
    {
        let mut k: usize = 0;
        while k < n
            invariant
                self.wf(),
                col < WIDTH,
                row + n <= HEIGHT,
                k <= n,
                self@ == with_vrun(old(self)@, col as int, row as int, k as nat,
                    Cell { glyph: glyph as u8, fg, bg }),
            decreases n - k,
        {
            self.plot(glyph, col, row + k, fg, bg);
            k += 1;
        }
    }

    /// Sets `n` cells of row `row` to `glyph`, from `col` rightwards.
    pub fn draw_hrun(&mut self, glyph: char, col: usize, row: usize, n: usize, fg: Color, bg: Color)
        requires
            old(self).wf(),
            col + n <= WIDTH,
            row < HEIGHT,
        ensures
            final(self).wf(),
            final(self)@ == with_hrun(old(self)@, col as int, row as int, n as nat,
                Cell { glyph: glyph as u8, fg, bg }),
    {
        let mut k: usize = 0;
        while k < n
            invariant
                self.wf(),
                col + n <= WIDTH,
                row < HEIGHT,
                k <= n,
                self@ == with_hrun(old(self)@, col as int, row as int, k as nat,
                    Cell { glyph: glyph as u8, fg, bg }),
            decreases n - k,
        {
            self.plot(glyph, col + k, row, fg, bg);
            k += 1;
        }
    }

    /// Sets every cell to `glyph` in the given colors.
    pub fn fill(&mut self, glyph: char, fg: Color, bg: Color)
        requires
            old(self).wf(),
        ensures
            final(self).wf(),
            final(self)@ == filled(Cell { glyph: glyph as u8, fg, bg }),
    {
        let c = Cell { glyph: glyph as u8, fg, bg };
        let mut k: usize = 0;
        while k < WIDTH * HEIGHT
            invariant
                self.wf(),
                k <= WIDTH * HEIGHT,
                forall|j: int| 0 <= j < k ==> self@[j] == c,
            decreases WIDTH * HEIGHT - k,
        {
            self.cells.set(k, c);
            k += 1;
        }
        assert(self@ =~= filled(c));
    }
}

} // verus!
