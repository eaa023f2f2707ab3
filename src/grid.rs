//! The character grid: a fixed-size surface of cells, each a character with
//! a colour pair. It is the only record of where the snake lies.

use crate::arith::safe_add;
use crate::glyph::{sym_of, Color, ColorCode, Pal, Sym, pal_colors};
use vstd::prelude::*;

verus! {

/// Columns of the grid.
pub const WIDTH: usize = 80;

/// Rows of the grid.
pub const HEIGHT: usize = 25;

/// One cell of the grid.
#[derive(Clone, Copy, Debug, PartialEq, Eq, Structural)]
pub struct Cell {
    pub ch: char,
    pub color: ColorCode,
}

/// The cell of a cleared grid.
pub open spec fn blank_cell() -> Cell {
    Cell { ch: ' ', color: ColorCode { foreground: Color::Black, background: Color::Black } }
}

/// Position of the cell `(col, row)` in the row-major cell list.
pub open spec fn index_of(col: int, row: int) -> int {
    row * WIDTH + col
}

/// Whether `(col, row)` lies on the grid.
pub open spec fn in_bounds(col: int, row: int) -> bool {
    0 <= col < WIDTH && 0 <= row < HEIGHT
}

/// Distinct cells sit at distinct positions of the cell list.
pub proof fn lemma_index_distinct(c1: int, r1: int, c2: int, r2: int)
    requires
        in_bounds(c1, r1),
        in_bounds(c2, r2),
        (c1, r1) != (c2, r2),
    ensures
        index_of(c1, r1) != index_of(c2, r2),
        0 <= index_of(c1, r1) < WIDTH * HEIGHT,
{
}

/// The grid, row by row.
#[derive(Debug)]
pub struct Grid {
    pub cells: Vec<Cell>,
}

impl Grid {
    pub open spec fn wf(&self) -> bool {
        self.cells@.len() == WIDTH * HEIGHT
    }

    /// The cell at `(col, row)`.
    pub open spec fn at(&self, col: int, row: int) -> Cell {
        self.cells@[index_of(col, row)]
    }

    /// The symbol that the cell at `(col, row)` shows.
    pub open spec fn sym_at(&self, col: int, row: int) -> Sym {
        sym_of(self.at(col, row).ch)
    }

    /// The grid after writing `ch` in colours `color` at `(col, row)`.
    pub open spec fn plotted(&self, ch: char, col: int, row: int, color: ColorCode) -> Seq<Cell> {
        self.cells@.update(index_of(col, row), Cell { ch, color })
    }

    /// A grid of blank cells.
    pub fn new() -> (r: Grid)
        ensures
            r.wf(),
            forall|i: int| 0 <= i < WIDTH * HEIGHT ==> r.cells@[i] == blank_cell(),
    {
        let mut cells: Vec<Cell> = Vec::new();
        let blank = Cell { ch: ' ', color: ColorCode::new(Color::Black, Color::Black) };
        let n: usize = WIDTH * HEIGHT;
        while cells.len() < n
            invariant
                cells@.len() <= n,
                n == WIDTH * HEIGHT,
                blank == blank_cell(),
                forall|i: int| 0 <= i < cells@.len() ==> cells@[i] == blank_cell(),
            decreases n - cells@.len(),
        {
            cells.push(blank);
        }
        Grid { cells }
    }

    /// Blanks every cell.
    pub fn clear(&mut self)
        requires
            old(self).wf(),
        ensures
            final(self).wf(),
            forall|i: int| 0 <= i < WIDTH * HEIGHT ==> final(self).cells@[i] == blank_cell(),
    {
        *self = Grid::new();
    }

    /// Reads the cell at `(col, row)`.
    pub fn peek(&self, col: usize, row: usize) -> (r: Cell)
        requires
            self.wf(),
            in_bounds(col as int, row as int),
        ensures
            r == self.at(col as int, row as int),
    {
        self.cells[row * WIDTH + col]
    }

    /// Writes `ch` in colours `color` at `(col, row)`.
    pub fn plot(&mut self, ch: char, col: usize, row: usize, color: ColorCode)
        requires
            old(self).wf(),
            in_bounds(col as int, row as int),
        ensures
            final(self).wf(),
            final(self).cells@ == old(self).plotted(ch, col as int, row as int, color),
    {
        self.cells.set(row * WIDTH + col, Cell { ch, color });
    }
}

/// The symbol and colours at `(col, row)`; off the grid, `NaN` on black.
pub fn safe_peek(grid: &Grid, col: usize, row: usize) -> (r: (Sym, ColorCode))
    requires
        grid.wf(),
    ensures
        in_bounds(col as int, row as int) ==> r == (
            grid.sym_at(col as int, row as int),
            grid.at(col as int, row as int).color,
        ),
        !in_bounds(col as int, row as int) ==> r == (Sym::NaN, pal_colors(Pal::EmptySpace)),
{
    if col >= WIDTH || row >= HEIGHT {
        (Sym::NaN, ColorCode::new(Color::Black, Color::Black))
    } else {
        let a = grid.peek(col, row);
        (Sym::from(a.ch), a.color)
    }
}

/// Whether a cell can take an apple: blank, on the neutral background.
pub open spec fn vacant(c: Cell) -> bool {
    sym_of(c.ch) == Sym::Empty && c.color.background == Color::Black
}

/// The cell that a scan from `(c0, r0)` visits at row step `i`, column step `j`.
pub open spec fn probe(c0: int, r0: int, i: int, j: int) -> (int, int) {
    ((c0 + j) % (WIDTH as int), (r0 + i) % (HEIGHT as int))
}

/// Whether scan step `(i2, j2)` comes before scan step `(i, j)`.
pub open spec fn scanned_before(i2: int, j2: int, i: int, j: int) -> bool {
    i2 < i || (i2 == i && j2 < j)
}

/// Whether scan step `(i, j)` is one of the grid's `WIDTH * HEIGHT` steps.
pub open spec fn scan_step(i: int, j: int) -> bool {
    0 <= i < HEIGHT && 0 <= j < WIDTH
}

impl Grid {
    /// Whether the cell that scan step `(i, j)` from `(c0, r0)` visits is vacant.
    pub open spec fn vacant_at_step(&self, c0: int, r0: int, i: int, j: int) -> bool {
        vacant(self.at(probe(c0, r0, i, j).0, probe(c0, r0, i, j).1))
    }

    /// Whether no cell that a scan from `(c0, r0)` visits is vacant.
    pub open spec fn none_vacant(&self, c0: int, r0: int) -> bool {
        forall|i: int, j: int| scan_step(i, j) ==> !self.vacant_at_step(c0, r0, i, j)
    }

    /// Whether `(col, row)` is the first vacant cell that a scan from
    /// `(c0, r0)` visits.
    pub open spec fn first_vacant(&self, c0: int, r0: int, col: int, row: int) -> bool {
        &&& in_bounds(col, row)
        &&& vacant(self.at(col, row))
        &&& exists|i: int, j: int| #![auto]
            scan_step(i, j) && probe(c0, r0, i, j) == (col, row)
            && forall|i2: int, j2: int| scan_step(i2, j2) && scanned_before(i2, j2, i, j)
                ==> !self.vacant_at_step(c0, r0, i2, j2)
    }

    /// Scans from `start` along its row, wrapping, then row after row, and
    /// returns the first vacant cell; `None` when no cell is vacant.
    pub fn find_vacant(&self, start: (usize, usize)) -> (r: Option<(usize, usize)>)
        requires
            self.wf(),
            in_bounds(start.0 as int, start.1 as int),
        ensures
            r is None <==> self.none_vacant(start.0 as int, start.1 as int),
            r matches Some(p) ==> self.first_vacant(start.0 as int, start.1 as int, p.0 as int, p.1 as int),
    {
        let c0 = start.0;
        let r0 = start.1;
        let mut i: usize = 0;
        while i < HEIGHT
            invariant
                self.wf(),
                in_bounds(c0 as int, r0 as int),
                start == (c0, r0),
                i <= HEIGHT,
                forall|i2: int, j2: int| scan_step(i2, j2) && i2 < i
                    ==> !self.vacant_at_step(c0 as int, r0 as int, i2, j2),
            decreases HEIGHT - i,
        {
            let row = safe_add::<HEIGHT>(r0, i);
            let mut j: usize = 0;
            while j < WIDTH
                invariant
                    self.wf(),
                    in_bounds(c0 as int, r0 as int),
                    start == (c0, r0),
                    i < HEIGHT,
                    j <= WIDTH,
                    row == (r0 + i) % (HEIGHT as int),
                    forall|i2: int, j2: int| scan_step(i2, j2) && scanned_before(i2, j2, i as int, j as int)
                        ==> !self.vacant_at_step(c0 as int, r0 as int, i2, j2),
                decreases WIDTH - j,
            {
                let col = safe_add::<WIDTH>(c0, j);
                let cell = self.peek(col, row);
                if Sym::from(cell.ch) == Sym::Empty && cell.color.background() == Color::Black {
                    assert(probe(c0 as int, r0 as int, i as int, j as int) == (col as int, row as int));
                    assert(scan_step(i as int, j as int));
                    assert(self.vacant_at_step(c0 as int, r0 as int, i as int, j as int));
                    return Some((col, row));
                }
                j = j + 1;
            }
            i = i + 1;
        }
        None
    }
}

/// The character of the score label at column `col` of the top row.
pub open spec fn label_char(col: int) -> char {
    if col == 2 {
        'S'
    } else if col == 3 {
        'C'
    } else if col == 4 {
        'O'
    } else if col == 5 {
        'R'
    } else if col == 6 {
        'E'
    } else {
        ':'
    }
}

/// What the border frame and the score label put at `(col, row)`, if anything.
pub open spec fn frame_at(col: int, row: int) -> Option<Cell> {
    let wall = pal_colors(Pal::Wall);
    if row == 0 && 2 <= col <= 7 {
        Some(Cell { ch: label_char(col), color: pal_colors(Pal::Text) })
    } else if col == 0 && row == 1 {
        Some(Cell { ch: 'r', color: wall })
    } else if col == WIDTH - 1 && row == 1 {
        Some(Cell { ch: ';', color: wall })
    } else if col == 0 && row == HEIGHT - 1 {
        Some(Cell { ch: 'L', color: wall })
    } else if col == WIDTH - 1 && row == HEIGHT - 1 {
        Some(Cell { ch: 'J', color: wall })
    } else if col == 0 || col == WIDTH - 1 {
        Some(Cell { ch: '|', color: wall })
    } else if row == 1 || row == HEIGHT - 1 {
        Some(Cell { ch: '=', color: wall })
    } else if row == 0 {
        Some(Cell { ch: ' ', color: ColorCode { foreground: Color::Blue, background: Color::Blue } })
    } else {
        None
    }
}

/// The cell at `(col, row)` after drawing the frame over `c`.
pub open spec fn framed(c: Cell, col: int, row: int) -> Cell {
    match frame_at(col, row) {
        Some(f) => f,
        None => c,
    }
}

/// The cell that the frame puts at `(col, row)`, if any.
pub fn frame_cell(col: usize, row: usize) -> (r: Option<Cell>)
    requires
        in_bounds(col as int, row as int),
    ensures
        r == frame_at(col as int, row as int),
{
    let wall = Pal::Wall.disp();
    if row == 0 && 2 <= col && col <= 7 {
        let ch = if col == 2 {
            'S'
        } else if col == 3 {
            'C'
        } else if col == 4 {
            'O'
        } else if col == 5 {
            'R'
        } else if col == 6 {
            'E'
        } else {
            ':'
        };
        Some(Cell { ch, color: Pal::Text.disp() })
    } else if col == 0 && row == 1 {
        Some(Cell { ch: 'r', color: wall })
    } else if col == WIDTH - 1 && row == 1 {
        Some(Cell { ch: ';', color: wall })
    } else if col == 0 && row == HEIGHT - 1 {
        Some(Cell { ch: 'L', color: wall })
    } else if col == WIDTH - 1 && row == HEIGHT - 1 {
        Some(Cell { ch: 'J', color: wall })
    } else if col == 0 || col == WIDTH - 1 {
        Some(Cell { ch: '|', color: wall })
    } else if row == 1 || row == HEIGHT - 1 {
        Some(Cell { ch: '=', color: wall })
    } else if row == 0 {
        Some(Cell { ch: ' ', color: ColorCode::new(Color::Blue, Color::Blue) })
    } else {
        None
    }
}

impl Grid {
    /// Draws the walls around the play area and the score label above it.
    pub fn draw_frame(&mut self)
        requires
            old(self).wf(),
        ensures
            final(self).wf(),
            forall|col: int, row: int| #![trigger final(self).at(col, row)] in_bounds(col, row)
                ==> final(self).at(col, row) == framed(old(self).at(col, row), col, row),
    {
        let ghost before = self.cells@;
        let mut row: usize = 0;
        while row < HEIGHT
            invariant
                self.wf(),
                before.len() == WIDTH * HEIGHT,
                row <= HEIGHT,
                forall|c2: int, r2: int| #![trigger self.at(c2, r2)] in_bounds(c2, r2) ==>
                    self.at(c2, r2) == if r2 < row {
                        framed(before[index_of(c2, r2)], c2, r2)
                    } else {
                        before[index_of(c2, r2)]
                    },
            decreases HEIGHT - row,
        {
            let mut col: usize = 0;
            while col < WIDTH
                invariant
                    self.wf(),
                    before.len() == WIDTH * HEIGHT,
                    row < HEIGHT,
                    col <= WIDTH,
                    forall|c2: int, r2: int| #![trigger self.at(c2, r2)] in_bounds(c2, r2) ==>
                        self.at(c2, r2) == if r2 < row || (r2 == row && c2 < col) {
                            framed(before[index_of(c2, r2)], c2, r2)
                        } else {
                            before[index_of(c2, r2)]
                        },
                decreases WIDTH - col,
            {
                let ghost prev = self.cells@;
                assert forall|c2: int, r2: int| in_bounds(c2, r2) implies #[trigger] prev[index_of(c2, r2)] == if r2 < row || (r2 == row && c2 < col) {
                    framed(before[index_of(c2, r2)], c2, r2)
                } else {
                    before[index_of(c2, r2)]
                } by {
                    assert(self.at(c2, r2) == prev[index_of(c2, r2)]);
                }
                assert(self.at(col as int, row as int) == before[index_of(col as int, row as int)]);
                if let Some(cell) = frame_cell(col, row) {
                    self.plot(cell.ch, col, row, cell.color);
                }
                assert forall|c2: int, r2: int| in_bounds(c2, r2) && (c2, r2) != (col as int, row as int)
                    implies #[trigger] self.at(c2, r2) == prev[index_of(c2, r2)] by {
                    lemma_index_distinct(c2, r2, col as int, row as int);
                }
                assert(self.at(col as int, row as int) == framed(before[index_of(col as int, row as int)], col as int, row as int));
                col = col + 1;
            }
            row = row + 1;
        }
    }
}

} // verus!
