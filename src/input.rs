//! Key presses: the two-slot key buffer, turns, pause and restart.

use crate::arith::sub1;
use crate::driver::{valid_velocity, SnakeDriver};
use crate::glyph::Status;
use crate::grid::{HEIGHT, WIDTH};
use crate::random::{stir, stir_seed};
use pc_keyboard::{DecodedKey, KeyCode};
use vstd::prelude::*;

verus! {

/// pc_keyboard's `DecodedKey`, declared with its variants (a key code or a
/// character) so that a key press can be matched on.
#[verifier::external_type_specification]
pub struct ExDecodedKey(DecodedKey);

/// pc_keyboard's `KeyCode`, a plain enumeration of keys, declared with its
/// variants so that the arrow keys and escape can be told apart.
#[verifier::external_type_specification]
pub struct ExKeyCode(KeyCode);

/// The key byte of the escape key.
pub const ESCAPE: u8 = 0x1b;

/// The key buffer after a key arrives: the first free slot takes it, and a
/// full buffer has its second slot replaced.
pub open spec fn pushed(buf: (u8, u8), k: u8) -> (u8, u8) {
    if buf.0 == 0 {
        (k, 0)
    } else {
        (buf.0, k)
    }
}

/// The status after the escape key.
pub open spec fn escaped(s: Status) -> Status {
    match s {
        Status::GameOn => Status::Paused,
        Status::Paused => Status::GameOn,
        Status::GameOver => Status::StartScreen,
        _ => s,
    }
}

/// The velocity after a key is applied to `(dx, dy)` in status `status`:
/// a turn is taken only while the game runs, and never straight back.
pub open spec fn turned(dx: usize, dy: usize, status: Status, key: u8) -> (usize, usize) {
    if status != Status::GameOn {
        (dx, dy)
    } else if key == 0x61u8 && dx != 1 {
        ((WIDTH - 1) as usize, 0usize)
    } else if key == 0x64u8 && dx != WIDTH - 1 {
        (1usize, 0usize)
    } else if key == 0x77u8 && dy != 1 {
        (0usize, (HEIGHT - 1) as usize)
    } else if key == 0x73u8 && dy != HEIGHT - 1 {
        (0usize, 1usize)
    } else {
        (dx, dy)
    }
}

/// Whether `key` is one of the keys that the game acts on: `a`, `d`, `w`,
/// `s`, escape and `r`.
pub open spec fn is_command(key: u8) -> bool {
    key == 0x61u8 || key == 0x64u8 || key == 0x77u8 || key == 0x73u8 || key == ESCAPE || key == 0x72u8
}

/// What the key byte `key` does to `a`, giving `b`.
pub open spec fn input_applied(a: &SnakeDriver, b: &SnakeDriver, key: u8) -> bool {
    input_effect(a, b, key, a.input_buffer)
}

/// What taking the oldest key byte out of the buffer and applying it does
/// to `a`, giving `b`.
pub open spec fn input_taken(a: &SnakeDriver, b: &SnakeDriver) -> bool {
    input_effect(a, b, a.input_buffer.0, (a.input_buffer.1, 0u8))
}

/// What the key byte `key` does to `a`, giving `b` with the key buffer
/// `buf` unless the game restarts.
pub open spec fn input_effect(a: &SnakeDriver, b: &SnakeDriver, key: u8, buf: (u8, u8)) -> bool {
    if key == 0x72u8 && (a.status == Status::GameOver || a.status == Status::Paused) {
        &&& b.wf()
        &&& b.is_fresh()
        &&& b.framed_blank()
        &&& b.seed == stir(a.seed)
    } else {
        &&& b.seed == if is_command(key) {
            stir(a.seed)
        } else {
            ((a.seed as int + key as int) % 0x1_0000_0000) as u32
        }
        &&& (b.dx, b.dy) == turned(a.dx, a.dy, a.status, key)
        &&& b.status == if key == ESCAPE { escaped(a.status) } else { a.status }
        &&& b.keeps_position(a)
        &&& b.keeps_tail(a)
        &&& b.keeps_counters(a)
        &&& b.keeps_apple(a)
        &&& b.keeps_screen(a)
        &&& b.input_buffer == buf
    }
}

/// The key byte that a direction key stands for.
pub open spec fn arrow_byte(k: KeyCode) -> Option<u8> {
    match k {
        KeyCode::ArrowLeft => Some(0x61u8),
        KeyCode::ArrowRight => Some(0x64u8),
        KeyCode::ArrowUp => Some(0x77u8),
        KeyCode::ArrowDown => Some(0x73u8),
        _ => None,
    }
}

/// What a key code does to `a`, giving `b`: a direction key is stored in
/// the buffer, escape acts at once.
pub open spec fn raw_key_applied(a: &SnakeDriver, b: &SnakeDriver, k: KeyCode) -> bool {
    &&& b.keeps_position(a)
    &&& b.keeps_velocity(a)
    &&& b.keeps_tail(a)
    &&& b.keeps_counters(a)
    &&& b.keeps_apple(a)
    &&& b.keeps_screen(a)
    &&& match arrow_byte(k) {
        Some(byte) => {
            &&& b.seed == stir(a.seed)
            &&& b.input_buffer == pushed(a.input_buffer, byte)
            &&& b.status == a.status
        },
        None => if k == KeyCode::Escape {
            &&& b.seed == stir(a.seed)
            &&& b.input_buffer == a.input_buffer
            &&& b.status == escaped(a.status)
        } else {
            &&& b.seed == a.seed
            &&& b.input_buffer == a.input_buffer
            &&& b.status == a.status
        },
    }
}

/// What a typed character does to `a`, giving `b`: its low byte is stored in
/// the buffer.
pub open spec fn char_applied(a: &SnakeDriver, b: &SnakeDriver, c: char) -> bool {
    &&& b.keeps_position(a)
    &&& b.keeps_velocity(a)
    &&& b.keeps_tail(a)
    &&& b.keeps_counters(a)
    &&& b.keeps_apple(a)
    &&& b.keeps_screen(a)
    &&& b.seed == a.seed
    &&& b.status == a.status
    &&& b.input_buffer == pushed(a.input_buffer, (c as u32 % 256) as u8)
}

impl SnakeDriver {
    /// Records a decoded key press.
    pub fn key(&mut self, key: DecodedKey)
        requires
            old(self).wf(),
        ensures
            final(self).wf(),
            match key {
                DecodedKey::RawKey(k) => raw_key_applied(old(self), final(self), k),
                DecodedKey::Unicode(c) => char_applied(old(self), final(self), c),
            },
    {
        match key {
            DecodedKey::RawKey(code) => self.handle_raw(code),
            DecodedKey::Unicode(c) => self.handle_unicode(c),
        }
    }

    /// Stores a key byte in the buffer.
    fn push_input(&mut self, k: u8)
        ensures
            final(self).input_buffer == pushed(old(self).input_buffer, k),
            final(self).keeps_position(old(self)),
            final(self).keeps_velocity(old(self)),
            final(self).keeps_tail(old(self)),
            final(self).keeps_counters(old(self)),
            final(self).keeps_apple(old(self)),
            final(self).keeps_screen(old(self)),
            final(self).seed == old(self).seed,
            final(self).status == old(self).status,
    {
        if self.input_buffer.0 == 0 {
            self.input_buffer = (k, 0);
        } else {
            self.input_buffer = (self.input_buffer.0, k);
        }
    }

    /// Handles a key code: a direction key goes to the buffer, escape
    /// pauses, resumes, or leaves the game-over screen.
    pub fn handle_raw(&mut self, key: KeyCode)
        requires
            old(self).wf(),
        ensures
            final(self).wf(),
            raw_key_applied(old(self), final(self), key),
    {
        match key {
            KeyCode::ArrowLeft => {
                self.seed = stir_seed(self.seed);
                self.push_input(0x61);
            },
            KeyCode::ArrowRight => {
                self.seed = stir_seed(self.seed);
                self.push_input(0x64);
            },
            KeyCode::ArrowUp => {
                self.seed = stir_seed(self.seed);
                self.push_input(0x77);
            },
            KeyCode::ArrowDown => {
                self.seed = stir_seed(self.seed);
                self.push_input(0x73);
            },
            KeyCode::Escape => {
                self.seed = stir_seed(self.seed);
                self.escape();
            },
            _ => {},
        }
    }

    /// Applies the escape key to the status.
    fn escape(&mut self)
        ensures
            final(self).status == escaped(old(self).status),
            final(self).keeps_position(old(self)),
            final(self).keeps_velocity(old(self)),
            final(self).keeps_tail(old(self)),
            final(self).keeps_counters(old(self)),
            final(self).keeps_apple(old(self)),
            final(self).keeps_screen(old(self)),
            final(self).seed == old(self).seed,
            final(self).input_buffer == old(self).input_buffer,
    {
        match self.status {
            Status::GameOn => self.status = Status::Paused,
            Status::Paused => self.status = Status::GameOn,
            Status::GameOver => self.status = Status::StartScreen,
            _ => {},
        }
    }

    /// Stores the low byte of a typed character in the buffer.
    pub fn handle_unicode(&mut self, key: char)
        requires
            old(self).wf(),
        ensures
            final(self).wf(),
            char_applied(old(self), final(self), key),
    {
        let byte = ((key as u32) % 256) as u8;
        self.push_input(byte);
    }

    /// Applies one key byte from the buffer: turns, pause and resume,
    /// restart; every byte stirs the seed.
    pub fn handle_input(&mut self, key: u8)
        requires
            old(self).wf(),
        ensures
            final(self).wf(),
            input_applied(old(self), final(self), key),
    {
        if key == 0x61 {
            self.seed = stir_seed(self.seed);
            if self.dx != 1 && self.status == Status::GameOn {
                self.dx = WIDTH - 1;
                self.dy = 0;
            }
        } else if key == 0x64 {
            self.seed = stir_seed(self.seed);
            if self.dx != WIDTH - 1 && self.status == Status::GameOn {
                self.dx = 1;
                self.dy = 0;
            }
        } else if key == 0x77 {
            self.seed = stir_seed(self.seed);
            if self.dy != 1 && self.status == Status::GameOn {
                self.dy = sub1::<HEIGHT>(0);
                self.dx = 0;
            }
        } else if key == 0x73 {
            self.seed = stir_seed(self.seed);
            if self.dy != HEIGHT - 1 && self.status == Status::GameOn {
                self.dy = 1;
                self.dx = 0;
            }
        } else if key == ESCAPE {
            self.seed = stir_seed(self.seed);
            self.escape();
        } else if key == 0x72 {
            self.seed = stir_seed(self.seed);
            if self.status == Status::GameOver || self.status == Status::Paused {
                self.reset();
            }
        } else {
            self.seed = self.seed.wrapping_add(key as u32);
        }
    }
}

/// The key byte that asks for the direction opposite to `(dx, dy)`.
pub open spec fn reverse_key(dx: usize, dy: usize) -> u8 {
    if dx == 1 {
        0x61u8
    } else if dx == WIDTH - 1 {
        0x64u8
    } else if dy == 1 {
        0x77u8
    } else {
        0x73u8
    }
}

/// A key that would turn the snake straight back is ignored: the velocity
/// stays as it was (moving east, `a` changes nothing).
pub proof fn lemma_reverse_rejected(a: &SnakeDriver, b: &SnakeDriver, key: u8)
    requires
        valid_velocity(a.dx, a.dy),
        key == reverse_key(a.dx, a.dy),
        input_applied(a, b, key),
    ensures
        b.dx == a.dx && b.dy == a.dy,
{
}

} // verus!
