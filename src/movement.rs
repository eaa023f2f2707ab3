//! The head's step: wrapping, collisions, eating, and the trail glyph
//! left behind.

use crate::arith::safe_add;
use crate::driver::{APPLE_STALL_TICKS, SnakeDriver};
use crate::glyph::{
    choose_trail, glyph_of, lemma_body_glyph_round_trip, lemma_trail_links_both_ends, links,
    opposite, pal_colors, step_dir, trail_sym, Pal, Status, Sym,
};
use crate::grid::{in_bounds, Cell, HEIGHT, WIDTH};
use crate::tail::neighbour;
use vstd::prelude::*;

verus! {

/// The signed step that a wrapped displacement `d` on a ring of `limit`
/// stands for: `1`, `-1`, or `0` for anything that is no unit step.
pub open spec fn signed_step(d: int, limit: int) -> int {
    if d == 1 {
        1
    } else if d == limit - 1 {
        -1
    } else {
        0
    }
}

/// `x + k`, held at `usize::MAX`.
pub open spec fn sat_add(x: usize, k: usize) -> usize {
    if x + k <= usize::MAX {
        (x + k) as usize
    } else {
        usize::MAX
    }
}

/// Whether entering a cell showing `s` kills the snake: its own body (and
/// the walls, drawn with body glyphs), or an unreadable cell.
pub open spec fn is_fatal(s: Sym) -> bool {
    s is Body || s == Sym::NaN
}

impl SnakeDriver {
    /// The cell that the head moves into: one step of the velocity, wrapping
    /// at every edge.
    pub open spec fn target(&self) -> (int, int) {
        ((self.col + self.dx) % (WIDTH as int), (self.row + self.dy) % (HEIGHT as int))
    }

    /// The step that brought the head into its cell, as signed unit steps.
    pub open spec fn last_step(&self) -> (int, int) {
        (
            signed_step((self.col + WIDTH - self.oldcol) % (WIDTH as int), WIDTH as int),
            signed_step((self.row + HEIGHT - self.oldrow) % (HEIGHT as int), HEIGHT as int),
        )
    }

    /// The current velocity as signed unit steps.
    pub open spec fn next_step(&self) -> (int, int) {
        (signed_step(self.dx as int, WIDTH as int), signed_step(self.dy as int, HEIGHT as int))
    }

    /// The body glyph that the head leaves behind in its cell when it moves.
    pub open spec fn trail_glyph(&self) -> char {
        glyph_of(trail_sym(self.last_step().0, self.last_step().1, self.next_step().0, self.next_step().1))
    }
}

/// How the head fields of `a` change when the head moves, giving `b`.
pub open spec fn head_moved(a: &SnakeDriver, b: &SnakeDriver) -> bool {
    let (nc, nr) = a.target();
    let s = a.screen.sym_at(nc, nr);
    &&& b.oldcol == a.col && b.oldrow == a.row
    &&& if is_fatal(s) {
        &&& b.col == a.col && b.row == a.row
        &&& b.status == Status::Death
        &&& b.score == a.score && b.apple_effect == a.apple_effect
    } else {
        &&& b.col == nc && b.row == nr
        &&& b.status == a.status
        &&& if s == Sym::Apple {
            b.score == sat_add(a.score, 1) && b.apple_effect == sat_add(a.apple_effect, APPLE_STALL_TICKS)
        } else {
            b.score == a.score && b.apple_effect == a.apple_effect
        }
    }
    &&& b.keeps_velocity(a)
    &&& b.keeps_tail(a)
    &&& b.keeps_apple(a)
    &&& b.length == a.length && b.countdown == a.countdown
    &&& b.seed == a.seed
    &&& b.input_buffer == a.input_buffer
}

/// One move of `a`, giving `b`: the head moves (or dies), the vacated cell
/// takes its trail glyph, and the head glyph is drawn where the head is.
pub open spec fn advanced(a: &SnakeDriver, b: &SnakeDriver) -> bool {
    &&& head_moved(a, b)
    &&& b.screen.cells@ == a.screen.plotted(a.trail_glyph(), a.col as int, a.row as int, pal_colors(Pal::Snake))
        .update(crate::grid::index_of(b.col as int, b.row as int), Cell { ch: '0', color: pal_colors(Pal::Snake) })
}

impl SnakeDriver {
    /// Moves the head one step, wrapping at the edges, and judges the cell
    /// it enters: its own body or an unreadable cell kills the snake and
    /// leaves the head where it was; an apple scores and owes growth.
    pub fn update_location(&mut self)
        requires
            old(self).wf(),
        ensures
            final(self).wf(),
            head_moved(old(self), final(self)),
            final(self).keeps_screen(old(self)),
    {
        self.oldcol = self.col;
        self.oldrow = self.row;
        self.col = safe_add::<WIDTH>(self.col, self.dx);
        self.row = safe_add::<HEIGHT>(self.row, self.dy);
        let (s, _) = crate::grid::safe_peek(&self.screen, self.col, self.row);
        match s {
            Sym::Start => {},
            Sym::Head => {},
            Sym::Body(_) => {
                self.col = self.oldcol;
                self.row = self.oldrow;
                self.status = Status::Death;
            },
            Sym::Apple => {
                self.apple_effect = self.apple_effect.saturating_add(APPLE_STALL_TICKS);
                self.score = self.score.saturating_add(1);
            },
            Sym::NaN => {
                self.col = self.oldcol;
                self.row = self.oldrow;
                self.status = Status::Death;
            },
            _ => {},
        }
    }

    /// Moves the head and leaves in the vacated cell the body glyph that
    /// joins the step in and the step out.
    pub fn replace_current(&mut self)
        requires
            old(self).wf(),
        ensures
            final(self).wf(),
            head_moved(old(self), final(self)),
            final(self).screen.cells@ == old(self).screen.plotted(
                old(self).trail_glyph(), old(self).col as int, old(self).row as int, pal_colors(Pal::Snake)),
    {
        let back_x = safe_add::<WIDTH>(self.col, WIDTH - self.oldcol);
        let back_y = safe_add::<HEIGHT>(self.row, HEIGHT - self.oldrow);
        let old_dx = signed_of(back_x, WIDTH);
        let old_dy = signed_of(back_y, HEIGHT);
        let new_dx = signed_of(self.dx, WIDTH);
        let new_dy = signed_of(self.dy, HEIGHT);
        let c = choose_trail(old_dx, old_dy, new_dx, new_dy);
        self.update_location();
        let color = Pal::Snake.disp();
        self.screen.plot(c.disp(), self.oldcol, self.oldrow, color);
    }

    /// Draws the head glyph at the head.
    pub fn draw_current(&mut self)
        requires
            old(self).wf(),
        ensures
            final(self).wf(),
            final(self).screen.cells@ == old(self).screen.plotted(
                '0', old(self).col as int, old(self).row as int, pal_colors(Pal::Snake)),
            final(self).keeps_position(old(self)),
            final(self).keeps_velocity(old(self)),
            final(self).keeps_tail(old(self)),
            final(self).keeps_counters(old(self)),
            final(self).keeps_apple(old(self)),
            final(self).status == old(self).status,
            final(self).seed == old(self).seed,
            final(self).input_buffer == old(self).input_buffer,
    {
        let color = Pal::Snake.disp();
        self.screen.plot(Sym::Head.disp(), self.col, self.row, color);
    }

    /// One move: the head advances and its old cell becomes body.
    pub fn advance(&mut self)
        requires
            old(self).wf(),
        ensures
            final(self).wf(),
            advanced(old(self), final(self)),
    {
        self.replace_current();
        self.draw_current();
    }
}

/// The signed unit step that a wrapped displacement stands for.
pub fn signed_of(d: usize, limit: usize) -> (r: i8)
    requires
        limit > 2,
    ensures
        r as int == signed_step(d as int, limit as int),
{
    if d == 1 {
        1
    } else if d == limit - 1 {
        -1
    } else {
        0
    }
}

/// Stepping east past the right edge wraps to column `0` on the same row.
pub proof fn lemma_wraps_at_right_edge(a: &SnakeDriver, b: &SnakeDriver)
    requires
        a.wf(),
        a.dx == 1 && a.dy == 0,
        a.col == WIDTH - 1,
        !is_fatal(a.screen.sym_at(0, a.row as int)),
        advanced(a, b),
    ensures
        b.col == 0 && b.row == a.row,
        in_bounds(b.col as int, b.row as int),
{
}

/// Moving onto an apple scores one point, owes the growth of one apple,
/// and leaves the head glyph, not the apple, in that cell.
pub proof fn lemma_apple_eaten(a: &SnakeDriver, b: &SnakeDriver)
    requires
        a.wf(),
        a.screen.sym_at(a.target().0, a.target().1) == Sym::Apple,
        a.score < usize::MAX,
        a.apple_effect + APPLE_STALL_TICKS <= usize::MAX,
        advanced(a, b),
    ensures
        b.score == a.score + 1,
        b.apple_effect == a.apple_effect + APPLE_STALL_TICKS,
        (b.col as int, b.row as int) == a.target(),
        b.screen.sym_at(a.target().0, a.target().1) == Sym::Head,
{
}

/// Moving onto the body kills the snake and leaves head and tail in place.
pub proof fn lemma_self_collision(a: &SnakeDriver, b: &SnakeDriver)
    requires
        a.wf(),
        a.screen.sym_at(a.target().0, a.target().1) is Body,
        advanced(a, b),
    ensures
        b.status == Status::Death,
        b.col == a.col && b.row == a.row,
        b.tail_col == a.tail_col && b.tail_row == a.tail_row,
{
}

/// Whether `(dx, dy)` is a signed unit step along one axis.
pub open spec fn is_unit_step(dx: int, dy: int) -> bool {
    (dx == 0) != (dy == 0) && -1 <= dx <= 1 && -1 <= dy <= 1
}

/// A move that does not kill the snake, and neither reverses nor follows a
/// non-step, leaves in the vacated cell a body glyph that links back the way
/// the head came and on to the cell the head now occupies, which is that
/// cell's neighbour in the direction of travel.
pub proof fn lemma_trail_points_at_head(a: &SnakeDriver, b: &SnakeDriver)
    requires
        a.wf(),
        !is_fatal(a.screen.sym_at(a.target().0, a.target().1)),
        is_unit_step(a.last_step().0, a.last_step().1),
        !(a.last_step().0 == -a.next_step().0 && a.last_step().1 == -a.next_step().1),
        advanced(a, b),
    ensures
        (b.col as int, b.row as int) == neighbour(
            a.col as int, a.row as int, step_dir(a.next_step().0, a.next_step().1)),
        b.screen.sym_at(a.col as int, a.row as int) is Body,
        links(b.screen.sym_at(a.col as int, a.row as int)->Body_0, step_dir(a.next_step().0, a.next_step().1)),
        links(b.screen.sym_at(a.col as int, a.row as int)->Body_0,
            opposite(step_dir(a.last_step().0, a.last_step().1))),
        b.screen.sym_at(b.col as int, b.row as int) == Sym::Head,
{
    let (odx, ody) = a.last_step();
    let (ndx, ndy) = a.next_step();
    lemma_trail_links_both_ends(odx, ody, ndx, ndy);
    lemma_body_glyph_round_trip(trail_sym(odx, ody, ndx, ndy)->Body_0);
    crate::grid::lemma_index_distinct(a.col as int, a.row as int, b.col as int, b.row as int);
}

} // verus!
