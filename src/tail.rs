//! The tail chase: the tail follows the body glyphs from cell to cell.

use crate::arith::{add1, sub1};
use crate::driver::SnakeDriver;
use crate::glyph::{links, opposite, pal_colors, Dir, Pal, Sym};
use crate::grid::{in_bounds, Grid, HEIGHT, WIDTH};
use vstd::prelude::*;

verus! {

/// The cell next to `(col, row)` in direction `d`, wrapping at the edges.
pub open spec fn neighbour(col: int, row: int, d: Dir) -> (int, int) {
    match d {
        Dir::East => ((col + 1) % (WIDTH as int), row),
        Dir::South => (col, (row + 1) % (HEIGHT as int)),
        Dir::West => ((col + WIDTH - 1) % (WIDTH as int), row),
        Dir::North => (col, (row + HEIGHT - 1) % (HEIGHT as int)),
    }
}

/// Whether a tail cell showing `s` may continue in direction `d`: a start
/// marker in any direction, a body segment where it links.
pub open spec fn tail_links(s: Sym, d: Dir) -> bool {
    s == Sym::Start || (s is Body && links(s->Body_0, d))
}

/// Whether the path goes on from the tail `(col, row)`, showing `s`, to its
/// neighbour in direction `d`: the tail links that way, and the neighbour
/// is a body segment that links back.
pub open spec fn continues(g: Grid, col: int, row: int, s: Sym, d: Dir) -> bool {
    let (nc, nr) = neighbour(col, row, d);
    &&& tail_links(s, d)
    &&& g.sym_at(nc, nr) is Body
    &&& links(g.sym_at(nc, nr)->Body_0, opposite(d))
}

/// The next tail cell: the first neighbour, east, south, west, north, that
/// continues the path; the tail itself when none does.
pub open spec fn chase_next(g: Grid, col: int, row: int, s: Sym) -> (int, int) {
    if continues(g, col, row, s, Dir::East) {
        neighbour(col, row, Dir::East)
    } else if continues(g, col, row, s, Dir::South) {
        neighbour(col, row, Dir::South)
    } else if continues(g, col, row, s, Dir::West) {
        neighbour(col, row, Dir::West)
    } else if continues(g, col, row, s, Dir::North) {
        neighbour(col, row, Dir::North)
    } else {
        (col, row)
    }
}

/// What advancing the tail does to `a`, giving `b`: a tail cell showing a
/// body segment or the start marker is blanked and the tail moves on to
/// `chase_next`; any other tail cell leaves everything as it was.
pub open spec fn tail_chased(a: &SnakeDriver, b: &SnakeDriver) -> bool {
    let (tc, tr) = (a.tail_col as int, a.tail_row as int);
    let s = a.screen.sym_at(tc, tr);
    &&& if s is Body || s == Sym::Start {
        &&& b.screen.cells@ == a.screen.plotted(' ', tc, tr, pal_colors(Pal::EmptySpace))
        &&& (b.tail_col as int, b.tail_row as int) == chase_next(a.screen, tc, tr, s)
    } else {
        b.keeps_screen(a) && b.keeps_tail(a)
    }
    &&& b.keeps_position(a)
    &&& b.keeps_velocity(a)
    &&& b.keeps_counters(a)
    &&& b.keeps_apple(a)
    &&& b.status == a.status
    &&& b.seed == a.seed
    &&& b.input_buffer == a.input_buffer
}

impl SnakeDriver {
    /// The neighbour of the tail in direction `d`, and whether the path
    /// goes on there from the tail, which shows `s`.
    fn probe_tail(&self, s: Sym, d: Dir) -> (r: (bool, usize, usize))
        requires
            self.wf(),
        ensures
            r.0 == continues(self.screen, self.tail_col as int, self.tail_row as int, s, d),
            (r.1 as int, r.2 as int) == neighbour(self.tail_col as int, self.tail_row as int, d),
            in_bounds(r.1 as int, r.2 as int),
    {
        let (nc, nr) = match d {
            Dir::East => (add1::<WIDTH>(self.tail_col), self.tail_row),
            Dir::South => (self.tail_col, add1::<HEIGHT>(self.tail_row)),
            Dir::West => (sub1::<WIDTH>(self.tail_col), self.tail_row),
            Dir::North => (self.tail_col, sub1::<HEIGHT>(self.tail_row)),
        };
        let from_tail = match s {
            Sym::Start => true,
            Sym::Body(t) => t.links_to(d),
            _ => false,
        };
        let (n, _) = crate::grid::safe_peek(&self.screen, nc, nr);
        let back = d.opposite();
        let ok = from_tail && match n {
            Sym::Body(t) => t.links_to(back),
            _ => false,
        };
        (ok, nc, nr)
    }

    /// Advances the tail: blanks the tail cell and moves the tail to the
    /// neighbour that continues the path, trying east, south, west, north.
    pub fn erase_tail(&mut self)
        requires
            old(self).wf(),
        ensures
            final(self).wf(),
            tail_chased(old(self), final(self)),
    {
        let (s, _) = crate::grid::safe_peek(&self.screen, self.tail_col, self.tail_row);
        let moving = match s {
            Sym::Body(_) | Sym::Start => true,
            _ => false,
        };
        if !moving {
            return;
        }
        let east = self.probe_tail(s, Dir::East);
        let south = self.probe_tail(s, Dir::South);
        let west = self.probe_tail(s, Dir::West);
        let north = self.probe_tail(s, Dir::North);
        let (nc, nr) = if east.0 {
            (east.1, east.2)
        } else if south.0 {
            (south.1, south.2)
        } else if west.0 {
            (west.1, west.2)
        } else if north.0 {
            (north.1, north.2)
        } else {
            (self.tail_col, self.tail_row)
        };
        let blank = Pal::EmptySpace.disp();
        self.screen.plot(' ', self.tail_col, self.tail_row, blank);
        self.tail_col = nc;
        self.tail_row = nr;
    }
}

} // verus!
