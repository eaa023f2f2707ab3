//! The game state, its starting values, and the tick that drives it.

use crate::apple::apple_placed;
use crate::glyph::{pal_colors, Pal, Status, Sym};
use crate::grid::{blank_cell, framed, in_bounds, Grid, HEIGHT, WIDTH};
use crate::input::input_taken;
use crate::movement::{advanced, sat_add};
use crate::tail::tail_chased;
use vstd::prelude::*;

verus! {

/// Ticks of growth that one apple is worth.
pub const APPLE_STALL_TICKS: usize = 3;

/// Ticks between two moves of the snake.
pub const UPDATE_FREQUENCY: usize = 1;

/// The whole state of a game, the grid included.
#[derive(Debug)]
pub struct SnakeDriver {
    pub col: usize,
    pub row: usize,
    pub oldcol: usize,
    pub oldrow: usize,
    pub dx: usize,
    pub dy: usize,
    pub score: usize,
    pub length: usize,
    pub status: Status,
    pub apple_x: usize,
    pub apple_y: usize,
    pub apple_effect: usize,
    pub countdown: usize,
    pub seed: u32,
    pub tail_col: usize,
    pub tail_row: usize,
    pub input_buffer: (u8, u8),
    pub screen: Grid,
}

/// A velocity is one unit step along one axis, a step back written as
/// `dimension - 1`.
pub open spec fn valid_velocity(dx: usize, dy: usize) -> bool {
    ((dx == 1 || dx == WIDTH - 1) && dy == 0) || (dx == 0 && (dy == 1 || dy == HEIGHT - 1))
}

/// Column of the head at the start of a game.
pub const START_COL: usize = 20;

/// Row of the head at the start of a game.
pub const START_ROW: usize = 12;

impl SnakeDriver {
    pub open spec fn wf(&self) -> bool {
        &&& self.col < WIDTH && self.row < HEIGHT
        &&& self.oldcol < WIDTH && self.oldrow < HEIGHT
        &&& self.tail_col < WIDTH && self.tail_row < HEIGHT
        &&& self.apple_x < WIDTH && self.apple_y < HEIGHT
        &&& valid_velocity(self.dx, self.dy)
        &&& self.screen.wf()
    }

    pub open spec fn keeps_position(&self, o: &SnakeDriver) -> bool {
        self.col == o.col && self.row == o.row && self.oldcol == o.oldcol && self.oldrow == o.oldrow
    }

    pub open spec fn keeps_velocity(&self, o: &SnakeDriver) -> bool {
        self.dx == o.dx && self.dy == o.dy
    }

    pub open spec fn keeps_tail(&self, o: &SnakeDriver) -> bool {
        self.tail_col == o.tail_col && self.tail_row == o.tail_row
    }

    pub open spec fn keeps_counters(&self, o: &SnakeDriver) -> bool {
        &&& self.score == o.score
        &&& self.length == o.length
        &&& self.apple_effect == o.apple_effect
        &&& self.countdown == o.countdown
    }

    pub open spec fn keeps_apple(&self, o: &SnakeDriver) -> bool {
        self.apple_x == o.apple_x && self.apple_y == o.apple_y
    }

    pub open spec fn keeps_screen(&self, o: &SnakeDriver) -> bool {
        self.screen.cells@ == o.screen.cells@
    }

    /// Whether `self` is a fresh game on a framed, otherwise blank grid.
    pub open spec fn is_fresh(&self) -> bool {
        &&& self.col == START_COL && self.row == START_ROW
        &&& self.oldcol == START_COL && self.oldrow == START_ROW
        &&& self.dx == 1 && self.dy == 0
        &&& self.score == 0 && self.length == 0
        &&& self.status == Status::GameOn
        &&& self.apple_x == 0 && self.apple_y == 0
        &&& self.apple_effect == APPLE_STALL_TICKS * UPDATE_FREQUENCY
        &&& self.countdown == UPDATE_FREQUENCY
        &&& self.tail_col == START_COL && self.tail_row == START_ROW
        &&& self.input_buffer == (0u8, 0u8)
    }

    /// Whether the grid holds the frame and nothing else.
    pub open spec fn framed_blank(&self) -> bool {
        &&& self.screen.wf()
        &&& forall|col: int, row: int| #![trigger self.screen.at(col, row)] in_bounds(col, row)
            ==> self.screen.at(col, row) == framed(blank_cell(), col, row)
    }
}

impl Default for SnakeDriver {
    fn default() -> (r: SnakeDriver)
        ensures
            r.wf(),
            r.is_fresh(),
            r.seed == WIDTH as u32,
            forall|i: int| 0 <= i < WIDTH * HEIGHT ==> r.screen.cells@[i] == blank_cell(),
    {
        SnakeDriver::new()
    }
}

impl SnakeDriver {
    /// A fresh game on a blank grid; the frame is drawn by `draw_frame`.
    pub fn new() -> (r: SnakeDriver)
        ensures
            r.wf(),
            r.is_fresh(),
            r.seed == WIDTH as u32,
            forall|i: int| 0 <= i < WIDTH * HEIGHT ==> r.screen.cells@[i] == blank_cell(),
    {
        SnakeDriver {
            col: START_COL,
            row: START_ROW,
            oldcol: START_COL,
            oldrow: START_ROW,
            dx: 1,
            dy: 0,
            score: 0,
            length: 0,
            status: Status::GameOn,
            apple_x: 0,
            apple_y: 0,
            apple_effect: APPLE_STALL_TICKS * UPDATE_FREQUENCY,
            countdown: UPDATE_FREQUENCY,
            seed: WIDTH as u32,
            tail_col: START_COL,
            tail_row: START_ROW,
            input_buffer: (0, 0),
            screen: Grid::new(),
        }
    }

    /// Whether every coordinate lies on the grid, the velocity is a unit
    /// step, and the grid has its full size.
    pub fn is_wf(&self) -> (r: bool)
        ensures
            r == self.wf(),
    {
        let d = self.dx;
        let e = self.dy;
        self.col < WIDTH && self.row < HEIGHT && self.oldcol < WIDTH && self.oldrow < HEIGHT
            && self.tail_col < WIDTH && self.tail_row < HEIGHT && self.apple_x < WIDTH
            && self.apple_y < HEIGHT && (((d == 1 || d == WIDTH - 1) && e == 0) || (d == 0 && (e == 1
            || e == HEIGHT - 1))) && self.screen.cells.len() == WIDTH * HEIGHT
    }

    /// The status, for a caller deciding whether to keep ticking.
    pub fn current_status(&self) -> (r: Status)
        ensures
            r == self.status,
    {
        self.status
    }

    /// Draws the walls and the score label onto the grid.
    pub fn draw_frame(&mut self)
        requires
            old(self).wf(),
        ensures
            final(self).wf(),
            forall|col: int, row: int| #![trigger final(self).screen.at(col, row)] in_bounds(col, row)
                ==> final(self).screen.at(col, row) == framed(old(self).screen.at(col, row), col, row),
            final(self).keeps_position(old(self)),
            final(self).keeps_velocity(old(self)),
            final(self).keeps_tail(old(self)),
            final(self).keeps_counters(old(self)),
            final(self).keeps_apple(old(self)),
            final(self).status == old(self).status,
            final(self).seed == old(self).seed,
            final(self).input_buffer == old(self).input_buffer,
    {
        self.screen.draw_frame();
    }

    /// Starts a new game: every field but the seed takes its starting value,
    /// and the grid is cleared and framed.
    pub fn reset(&mut self)
        requires
            old(self).wf(),
        ensures
            final(self).wf(),
            final(self).is_fresh(),
            final(self).framed_blank(),
            final(self).seed == old(self).seed,
    {
        self.col = START_COL;
        self.row = START_ROW;
        self.oldcol = START_COL;
        self.oldrow = START_ROW;
        self.dx = 1;
        self.dy = 0;
        self.score = 0;
        self.length = 0;
        self.status = Status::GameOn;
        self.apple_x = 0;
        self.apple_y = 0;
        self.apple_effect = APPLE_STALL_TICKS * UPDATE_FREQUENCY;
        self.countdown = UPDATE_FREQUENCY;
        self.tail_col = START_COL;
        self.tail_row = START_ROW;
        self.input_buffer = (0, 0);
        self.screen.clear();
        self.screen.draw_frame();
    }
}

/// What a move tick does first to `a`, giving `b`: owed growth is taken
/// (the tail stays), or else the tail is chased.
pub open spec fn grown_or_chased(a: &SnakeDriver, b: &SnakeDriver) -> bool {
    if a.apple_effect != 0 {
        &&& b.apple_effect == a.apple_effect - 1
        &&& b.length == sat_add(a.length, 1)
        &&& b.score == a.score && b.countdown == a.countdown
        &&& b.keeps_position(a)
        &&& b.keeps_velocity(a)
        &&& b.keeps_tail(a)
        &&& b.keeps_apple(a)
        &&& b.keeps_screen(a)
        &&& b.status == a.status
        &&& b.seed == a.seed
        &&& b.input_buffer == a.input_buffer
    } else {
        tail_chased(a, b)
    }
}

/// What a move tick does last to `a`, giving `b`: an apple is placed
/// unless the apple cell still shows one.
pub open spec fn apple_refreshed(a: &SnakeDriver, b: &SnakeDriver) -> bool {
    if a.screen.sym_at(a.apple_x as int, a.apple_y as int) == Sym::Apple {
        &&& b.keeps_position(a)
        &&& b.keeps_velocity(a)
        &&& b.keeps_tail(a)
        &&& b.keeps_counters(a)
        &&& b.keeps_apple(a)
        &&& b.keeps_screen(a)
        &&& b.status == a.status
        &&& b.seed == a.seed
        &&& b.input_buffer == a.input_buffer
    } else {
        apple_placed(a, b)
    }
}

/// The status letter shown at the top of the grid.
pub open spec fn status_letter(s: Status) -> char {
    match s {
        Status::GameOn => 'G',
        Status::Paused => 'P',
        Status::Death => 'D',
        Status::GameOver => 'X',
        Status::StartScreen => 'S',
    }
}

/// Column of the status letter on the top row.
pub const STATUS_COL: usize = 40;

/// What the start of every tick does to `a`, giving `b`: the seed moves on
/// by one and the status letter is shown.
pub open spec fn tick_started(a: &SnakeDriver, b: &SnakeDriver) -> bool {
    &&& b.seed == ((a.seed as int + 1) % 0x1_0000_0000) as u32
    &&& b.screen.cells@ == a.screen.plotted(status_letter(a.status), STATUS_COL as int, 0, pal_colors(Pal::Text))
    &&& b.keeps_position(a)
    &&& b.keeps_velocity(a)
    &&& b.keeps_tail(a)
    &&& b.keeps_counters(a)
    &&& b.keeps_apple(a)
    &&& b.status == a.status
    &&& b.input_buffer == a.input_buffer
}

/// A whole move of `a`, giving `b`: growth or tail chase, then one buffered
/// key, then the head's step, then apple placement if the apple is gone.
pub open spec fn moved(a: &SnakeDriver, b: &SnakeDriver) -> bool {
    exists|s1: SnakeDriver, s2: SnakeDriver, s3: SnakeDriver|
        #![trigger grown_or_chased(a, &s1), input_taken(&s1, &s2), advanced(&s2, &s3)]
        grown_or_chased(a, &s1) && input_taken(&s1, &s2) && advanced(&s2, &s3) && apple_refreshed(&s3, b)
}

/// What one tick does to `a`, giving `b`: a running game counts down, and
/// at zero restarts the countdown and moves; a dying game is over; any
/// other status only takes one buffered key.
pub open spec fn ticked(a: &SnakeDriver, b: &SnakeDriver) -> bool {
    exists|s0: SnakeDriver| #![trigger tick_started(a, &s0)]
        tick_started(a, &s0) && match a.status {
            Status::GameOn => if a.countdown == 0 {
                moved(&SnakeDriver { countdown: UPDATE_FREQUENCY, ..s0 }, b)
            } else {
                &&& b.countdown == a.countdown - 1
                &&& b.keeps_position(&s0)
                &&& b.keeps_velocity(&s0)
                &&& b.keeps_tail(&s0)
                &&& b.score == s0.score && b.length == s0.length && b.apple_effect == s0.apple_effect
                &&& b.keeps_apple(&s0)
                &&& b.keeps_screen(&s0)
                &&& b.status == s0.status
                &&& b.seed == s0.seed
                &&& b.input_buffer == s0.input_buffer
            },
            Status::Death => {
                &&& b.status == Status::GameOver
                &&& b.keeps_position(&s0)
                &&& b.keeps_velocity(&s0)
                &&& b.keeps_tail(&s0)
                &&& b.keeps_counters(&s0)
                &&& b.keeps_apple(&s0)
                &&& b.keeps_screen(&s0)
                &&& b.seed == s0.seed
                &&& b.input_buffer == s0.input_buffer
            },
            _ => input_taken(&s0, b),
        }
}

impl SnakeDriver {
    /// Takes the oldest key byte out of the buffer and applies it.
    pub fn consume_input(&mut self)
        requires
            old(self).wf(),
        ensures
            final(self).wf(),
            input_taken(old(self), final(self)),
    {
        let key = self.input_buffer.0;
        self.handle_input(key);
        self.input_buffer = (self.input_buffer.1, 0);
    }

    /// Advances the game by one frame.
    pub fn tick(&mut self)
        requires
            old(self).wf(),
        ensures
            final(self).wf(),
            ticked(old(self), final(self)),
    {
        self.seed = self.seed.wrapping_add(1);
        let letter = match self.status {
            Status::GameOn => 'G',
            Status::Paused => 'P',
            Status::Death => 'D',
            Status::GameOver => 'X',
            Status::StartScreen => 'S',
        };
        let text = Pal::Text.disp();
        self.screen.plot(letter, STATUS_COL, 0, text);
        let ghost s0 = *self;
        assert(tick_started(old(self), &s0));
        match self.status {
            Status::GameOn => {
                if self.countdown == 0 {
                    self.countdown = UPDATE_FREQUENCY;
                    assert(*self == SnakeDriver { countdown: UPDATE_FREQUENCY, ..s0 });
                    self.move_snake();
                } else {
                    self.countdown = self.countdown - 1;
                }
            },
            Status::Death => {
                self.status = Status::GameOver;
            },
            _ => {
                self.consume_input();
            },
        }
    }

    /// One move of the snake: growth or tail chase, one buffered key, the
    /// head's step, and a new apple if the old one is gone.
    pub fn move_snake(&mut self)
        requires
            old(self).wf(),
        ensures
            final(self).wf(),
            moved(old(self), final(self)),
    {
        if self.apple_effect != 0 {
            self.apple_effect = self.apple_effect - 1;
            self.length = self.length.saturating_add(1);
        } else {
            self.erase_tail();
        }
        let ghost s1 = *self;
        self.consume_input();
        let ghost s2 = *self;
        self.advance();
        let ghost s3 = *self;
        let (at_apple, _) = crate::grid::safe_peek(&self.screen, self.apple_x, self.apple_y);
        if at_apple != Sym::Apple {
            self.place_apple();
        }
        assert(grown_or_chased(old(self), &s1) && input_taken(&s1, &s2) && advanced(&s2, &s3)
            && apple_refreshed(&s3, self));
    }
}

} // verus!
