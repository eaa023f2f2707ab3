//! Apple placement on the first vacant cell of a scan.

use crate::driver::SnakeDriver;
use crate::glyph::{pal_colors, Pal, Status, Sym};
use crate::grid::{Grid, HEIGHT, WIDTH};
use crate::random::draw;
use vstd::prelude::*;

verus! {

/// The first scan cell of an apple placement from the seed, the snake's
/// length and the head column, and the seed after the two draws: a column
/// in `1 ..= WIDTH - 2` and a row in `2 ..= HEIGHT - 2`.
pub open spec fn apple_candidate(seed: u32, length: usize, col: usize) -> (u32, int, int) {
    let (s1, x) = draw(seed, length, col);
    let (s2, y) = draw(s1, length, col);
    (s2, x as int % (WIDTH - 2) as int + 1, y as int % (HEIGHT - 3) as int + 2)
}

/// What placing an apple does to `a`, giving `b`: from the drawn candidate
/// the first vacant cell takes the apple; with none, the game pauses.
pub open spec fn apple_placed(a: &SnakeDriver, b: &SnakeDriver) -> bool {
    let (seed, c0, r0) = apple_candidate(a.seed, a.length, a.col);
    &&& b.seed == seed
    &&& if a.screen.none_vacant(c0, r0) {
        &&& b.status == Status::Paused
        &&& b.keeps_apple(a)
        &&& b.keeps_screen(a)
    } else {
        &&& b.status == a.status
        &&& a.screen.first_vacant(c0, r0, b.apple_x as int, b.apple_y as int)
        &&& b.screen.cells@ == a.screen.plotted('&', b.apple_x as int, b.apple_y as int, pal_colors(Pal::Appl))
    }
    &&& b.keeps_position(a)
    &&& b.keeps_velocity(a)
    &&& b.keeps_tail(a)
    &&& b.keeps_counters(a)
    &&& b.input_buffer == a.input_buffer
}

impl SnakeDriver {
    /// Draws a candidate cell and puts the apple on the first vacant cell
    /// that a scan from it finds; when the board is full, pauses the game.
    pub fn place_apple(&mut self)
        requires
            old(self).wf(),
        ensures
            final(self).wf(),
            apple_placed(old(self), final(self)),
    {
        let rand_x = (self.do_a_random() % (WIDTH as u32 - 2) + 1) as usize;
        let rand_y = (self.do_a_random() % (HEIGHT as u32 - 3) + 2) as usize;
        match self.screen.find_vacant((rand_x, rand_y)) {
            Some(newpos) => {
                self.apple_x = newpos.0;
                self.apple_y = newpos.1;
                let color = Pal::Appl.disp();
                self.screen.plot(Sym::Apple.disp(), self.apple_x, self.apple_y, color);
            },
            None => {
                self.status = Status::Paused;
            },
        }
    }
}

/// An apple goes only on a blank cell of the neutral background: never on
/// the body, the head, the start marker, another apple or a wall.
pub proof fn lemma_apple_cell_unoccupied(g: Grid, c0: int, r0: int, col: int, row: int)
    requires
        g.first_vacant(c0, r0, col, row),
    ensures
        !(g.sym_at(col, row) is Body),
        g.sym_at(col, row) != Sym::Head,
        g.sym_at(col, row) != Sym::Start,
        g.sym_at(col, row) != Sym::Apple,
        g.at(col, row).color.background != pal_colors(Pal::Wall).background,
{
}

} // verus!
