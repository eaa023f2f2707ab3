use pc_keyboard::{DecodedKey, KeyCode};
use snake_core::driver::{SnakeDriver, APPLE_STALL_TICKS};
use snake_core::movement::signed_of;
use snake_core::random::{checked_power, stir_seed};
use snake_core::glyph::{choose_trail, BodyTrail, Color, ColorCode, Dir, Pal, Status, Sym};
use snake_core::grid::{frame_cell, safe_peek, Grid, HEIGHT, WIDTH};
use snake_core::{add1, safe_add, sub1};

fn sym_at(d: &SnakeDriver, col: usize, row: usize) -> Sym {
    safe_peek(&d.screen, col, row).0
}

/// A driver whose next tick moves the snake, on a blank grid.
fn moving_at(col: usize, row: usize) -> SnakeDriver {
    let mut d = SnakeDriver::new();
    d.col = col;
    d.row = row;
    d.oldcol = col;
    d.oldrow = row;
    d.tail_col = col;
    d.tail_row = row;
    d.countdown = 0;
    d
}

#[test]
fn safe_add_wraps() {
    assert_eq!(safe_add::<80>(79, 1), 0);
    assert_eq!(safe_add::<80>(10, 5), 15);
    assert_eq!(safe_add::<25>(24, 26), 0);
    assert_eq!(safe_add::<7>(3, 13), 2);
}

#[test]
fn add1_and_sub1_step_around_the_ring() {
    assert_eq!(add1::<80>(79), 0);
    assert_eq!(add1::<80>(5), 6);
    assert_eq!(sub1::<80>(0), 79);
    assert_eq!(sub1::<25>(0), 24);
    assert_eq!(sub1::<25>(7), 6);
}

#[test]
fn body_glyphs_round_trip() {
    let all = [
        BodyTrail::Hori,
        BodyTrail::Vert,
        BodyTrail::Right2Up,
        BodyTrail::Left2Up,
        BodyTrail::Right2Down,
        BodyTrail::Left2Down,
    ];
    for t in all {
        let c = Sym::Body(t).disp();
        assert_eq!(Sym::from(c), Sym::Body(t));
        assert_eq!(Sym::from(c).disp(), c);
    }
}

#[test]
fn glyphs_are_the_documented_characters() {
    assert_eq!(Sym::Head.disp(), '0');
    assert_eq!(Sym::Apple.disp(), '&');
    assert_eq!(Sym::Start.disp(), '?');
    assert_eq!(Sym::Empty.disp(), ' ');
    assert_eq!(Sym::NaN.disp(), ' ');
    assert_eq!(Sym::Doug('x').disp(), 'x');
    assert_eq!(Sym::Body(BodyTrail::Hori).disp(), '=');
    assert_eq!(Sym::Body(BodyTrail::Right2Up).disp(), 'J');
    assert_eq!(Sym::Body(BodyTrail::Left2Down).disp(), 'r');
}

#[test]
fn unknown_characters_decode_to_nan() {
    assert_eq!(Sym::from('x'), Sym::NaN);
    assert_eq!(Sym::from('G'), Sym::NaN);
    assert_eq!(Sym::from(' '), Sym::Empty);
    assert_eq!(Sym::from('&'), Sym::Apple);
    assert_eq!(Sym::from('?'), Sym::Start);
}

#[test]
fn palette_colours() {
    assert_eq!(Pal::Snake.disp(), ColorCode::new(Color::Cyan, Color::Black));
    assert_eq!(Pal::Wall.disp(), ColorCode::new(Color::Yellow, Color::Red));
    assert_eq!(Pal::Appl.disp(), ColorCode::new(Color::Red, Color::Black));
    assert_eq!(Pal::Text.disp(), ColorCode::new(Color::White, Color::Blue));
    assert_eq!(Pal::EmptySpace.disp().background(), Color::Black);
}

#[test]
fn trail_table() {
    assert_eq!(choose_trail(1, 0, 1, 0), Sym::Body(BodyTrail::Hori));
    assert_eq!(choose_trail(-1, 0, -1, 0), Sym::Body(BodyTrail::Hori));
    assert_eq!(choose_trail(0, 1, 0, 1), Sym::Body(BodyTrail::Vert));
    assert_eq!(choose_trail(1, 0, 0, 1), Sym::Body(BodyTrail::Right2Down));
    assert_eq!(choose_trail(1, 0, 0, -1), Sym::Body(BodyTrail::Right2Up));
    assert_eq!(choose_trail(-1, 0, 0, -1), Sym::Body(BodyTrail::Left2Up));
    assert_eq!(choose_trail(0, -1, 1, 0), Sym::Body(BodyTrail::Left2Down));
    assert_eq!(choose_trail(0, 0, 1, 0), Sym::Doug('?'));
    assert_eq!(choose_trail(1, 0, -1, 0), Sym::Doug('?'));
}

#[test]
fn links_and_directions() {
    assert!(BodyTrail::Hori.links_to(Dir::East));
    assert!(!BodyTrail::Hori.links_to(Dir::North));
    assert!(BodyTrail::Right2Up.links_to(Dir::West));
    assert!(BodyTrail::Right2Up.links_to(Dir::North));
    assert!(!BodyTrail::Right2Up.links_to(Dir::South));
    assert_eq!(Dir::East.opposite(), Dir::West);
    assert_eq!(Dir::North.opposite(), Dir::South);
}

#[test]
fn signed_steps() {
    assert_eq!(signed_of(1, WIDTH), 1);
    assert_eq!(signed_of(WIDTH - 1, WIDTH), -1);
    assert_eq!(signed_of(0, WIDTH), 0);
    assert_eq!(signed_of(5, WIDTH), 0);
}

#[test]
fn safe_peek_off_the_grid() {
    let g = Grid::new();
    assert_eq!(safe_peek(&g, WIDTH, 0).0, Sym::NaN);
    assert_eq!(safe_peek(&g, 0, HEIGHT).0, Sym::NaN);
    assert_eq!(safe_peek(&g, 3, 3).0, Sym::Empty);
}

#[test]
fn plot_then_peek() {
    let mut g = Grid::new();
    g.plot('&', 7, 9, Pal::Appl.disp());
    assert_eq!(g.peek(7, 9).ch, '&');
    assert_eq!(safe_peek(&g, 7, 9), (Sym::Apple, Pal::Appl.disp()));
    assert_eq!(g.peek(8, 9).ch, ' ');
}

#[test]
fn frame_is_drawn() {
    let mut d = SnakeDriver::new();
    d.draw_frame();
    assert_eq!(d.screen.peek(0, 0).ch, '|');
    assert_eq!(d.screen.peek(0, 1).ch, 'r');
    assert_eq!(d.screen.peek(WIDTH - 1, 1).ch, ';');
    assert_eq!(d.screen.peek(0, HEIGHT - 1).ch, 'L');
    assert_eq!(d.screen.peek(WIDTH - 1, HEIGHT - 1).ch, 'J');
    assert_eq!(d.screen.peek(10, 1).ch, '=');
    assert_eq!(d.screen.peek(10, HEIGHT - 1).ch, '=');
    assert_eq!(d.screen.peek(2, 0).ch, 'S');
    assert_eq!(d.screen.peek(7, 0).ch, ':');
    assert_eq!(d.screen.peek(10, 0).color, ColorCode::new(Color::Blue, Color::Blue));
    assert_eq!(d.screen.peek(10, 10).ch, ' ');
    assert_eq!(d.screen.peek(0, 5).color, Pal::Wall.disp());
    assert_eq!(frame_cell(10, 10), None);
}

#[test]
fn stir_values() {
    assert_eq!(stir_seed(80), 6480);
    assert_eq!(stir_seed(6480), 524880);
    assert_eq!(stir_seed(0), 0);
    assert_eq!(stir_seed(u32::MAX), ((u32::MAX as u64 + u32::MAX as u64 * 255) % (1u64 << 32)) as u32);
}

#[test]
fn checked_power_values() {
    assert_eq!(checked_power(2, 10), Some(1024));
    assert_eq!(checked_power(0, 0), Some(1));
    assert_eq!(checked_power(3, 0), Some(1));
    assert_eq!(checked_power(2, 64), None);
    assert_eq!(checked_power(2, 63), Some(1u64 << 63));
    assert_eq!(checked_power(0, 200), Some(0));
}

#[test]
fn random_draw_without_length() {
    let mut d = SnakeDriver::new();
    let r = d.do_a_random();
    assert_eq!(d.seed, 524880);
    assert_eq!(r, 524880);
}

#[test]
fn random_draw_with_length() {
    let mut d = SnakeDriver::new();
    d.length = 2;
    let r = d.do_a_random();
    assert_eq!(d.seed, 524880);
    // step 0: 524880^0 + 20 = 21; step 1: 21^1 + 20 = 41
    assert_eq!(r, 41);
}

#[test]
fn random_draw_falls_back_on_overflow() {
    let mut d = SnakeDriver::new();
    d.length = 4;
    let r = d.do_a_random();
    // 21, 41, 41^2 + 20 = 1701, then 1701^3 + 20 = 4921675121
    assert_eq!(r, (4_921_675_121u64 % (1u64 << 32)) as u32);
    let mut e = SnakeDriver::new();
    e.length = 5;
    let r5 = e.do_a_random();
    // 4921675121^4 overflows: 4921675121 * 4 mod (2^32 - 1)
    let m: u64 = 0xffff_ffff;
    assert_eq!(r5 as u64, ((4_921_675_121u64 % m) * 4) % m);
}

#[test]
fn random_is_deterministic() {
    let mut a = SnakeDriver::new();
    let mut b = SnakeDriver::new();
    assert_eq!(a.do_a_random(), b.do_a_random());
    assert_eq!(a.do_a_random(), b.do_a_random());
    assert_eq!(a.seed, b.seed);
}

#[test]
fn wraps_at_right_edge() {
    let mut d = moving_at(WIDTH - 1, 5);
    d.advance();
    assert_eq!((d.col, d.row), (0, 5));
    assert_eq!(d.status, Status::GameOn);
    assert_eq!(sym_at(&d, 0, 5), Sym::Head);
}

#[test]
fn wraps_at_left_and_top_edges() {
    let mut d = moving_at(0, 0);
    d.dx = WIDTH - 1;
    d.advance();
    assert_eq!((d.col, d.row), (WIDTH - 1, 0));
    let mut e = moving_at(3, 0);
    e.dx = 0;
    e.dy = HEIGHT - 1;
    e.advance();
    assert_eq!((e.col, e.row), (3, HEIGHT - 1));
}

#[test]
fn eating_an_apple() {
    let mut d = moving_at(5, 5);
    d.screen.plot('&', 6, 5, Pal::Appl.disp());
    let effect = d.apple_effect;
    d.advance();
    assert_eq!(d.score, 1);
    assert_eq!(d.apple_effect, effect + APPLE_STALL_TICKS);
    assert_eq!((d.col, d.row), (6, 5));
    assert_eq!(sym_at(&d, 6, 5), Sym::Head);
}

#[test]
fn self_collision_kills() {
    let mut d = moving_at(5, 5);
    d.tail_col = 3;
    d.screen.plot('|', 6, 5, Pal::Snake.disp());
    d.advance();
    assert_eq!(d.status, Status::Death);
    assert_eq!((d.col, d.row), (5, 5));
    assert_eq!((d.tail_col, d.tail_row), (3, 5));
    assert_eq!(sym_at(&d, 6, 5), Sym::Body(BodyTrail::Vert));
    assert_eq!(sym_at(&d, 5, 5), Sym::Head);
    d.tick();
    assert_eq!(d.status, Status::GameOver);
}

#[test]
fn unreadable_cell_kills() {
    let mut d = moving_at(5, 5);
    d.screen.plot('x', 6, 5, Pal::Text.disp());
    d.advance();
    assert_eq!(d.status, Status::Death);
    assert_eq!((d.col, d.row), (5, 5));
}

#[test]
fn reverse_key_is_rejected() {
    let mut d = moving_at(5, 5);
    d.handle_input(b'a');
    assert_eq!((d.dx, d.dy), (1, 0));
    d.handle_input(b'w');
    assert_eq!((d.dx, d.dy), (0, HEIGHT - 1));
    d.handle_input(b's');
    assert_eq!((d.dx, d.dy), (0, HEIGHT - 1));
    d.handle_input(b'a');
    assert_eq!((d.dx, d.dy), (WIDTH - 1, 0));
    d.handle_input(b'd');
    assert_eq!((d.dx, d.dy), (WIDTH - 1, 0));
}

#[test]
fn left_arrow_while_moving_east_keeps_velocity() {
    let mut d = moving_at(5, 5);
    d.key(DecodedKey::RawKey(KeyCode::ArrowLeft));
    assert_eq!(d.input_buffer, (b'a', 0));
    d.tick();
    assert_eq!((d.dx, d.dy), (1, 0));
    assert_eq!((d.col, d.row), (6, 5));
    assert_eq!(d.input_buffer, (0, 0));
}

#[test]
fn turns_need_a_running_game() {
    let mut d = moving_at(5, 5);
    d.status = Status::Paused;
    d.handle_input(b'w');
    assert_eq!((d.dx, d.dy), (1, 0));
}

#[test]
fn keys_are_buffered_two_deep() {
    let mut d = moving_at(5, 5);
    d.key(DecodedKey::RawKey(KeyCode::ArrowUp));
    d.key(DecodedKey::RawKey(KeyCode::ArrowLeft));
    assert_eq!(d.input_buffer, (b'w', b'a'));
    d.key(DecodedKey::Unicode('s'));
    assert_eq!(d.input_buffer, (b'w', b's'));
    d.tick();
    assert_eq!((d.dx, d.dy), (0, HEIGHT - 1));
    assert_eq!((d.col, d.row), (5, 4));
    assert_eq!(d.input_buffer, (b's', 0));
    d.countdown = 0;
    d.tick();
    // `s` would reverse the upward move, so it is ignored.
    assert_eq!((d.dx, d.dy), (0, HEIGHT - 1));
    assert_eq!(d.input_buffer, (0, 0));
}

#[test]
fn arrow_keys_stir_the_seed() {
    let mut d = SnakeDriver::new();
    d.key(DecodedKey::RawKey(KeyCode::ArrowDown));
    assert_eq!(d.seed, 6480);
    d.key(DecodedKey::RawKey(KeyCode::F1));
    assert_eq!(d.seed, 6480);
    assert_eq!(d.input_buffer, (b's', 0));
}

#[test]
fn escape_toggles_pause() {
    let mut d = SnakeDriver::new();
    d.key(DecodedKey::RawKey(KeyCode::Escape));
    assert_eq!(d.current_status(), Status::Paused);
    d.key(DecodedKey::RawKey(KeyCode::Escape));
    assert_eq!(d.current_status(), Status::GameOn);
    d.status = Status::GameOver;
    d.handle_input(0x1b);
    assert_eq!(d.status, Status::StartScreen);
    d.status = Status::Death;
    d.handle_input(0x1b);
    assert_eq!(d.status, Status::Death);
}

#[test]
fn restart_from_game_over() {
    let mut d = moving_at(30, 7);
    d.score = 9;
    d.status = Status::GameOver;
    d.key(DecodedKey::Unicode('r'));
    d.tick();
    assert_eq!(d.status, Status::GameOn);
    assert_eq!(d.score, 0);
    assert_eq!((d.col, d.row), (WIDTH / 4, HEIGHT / 2));
    assert_eq!(d.screen.peek(0, 1).ch, 'r');
    assert_eq!(d.screen.peek(30, 7).ch, ' ');
}

#[test]
fn restart_ignored_while_running() {
    let mut d = moving_at(30, 7);
    d.score = 9;
    d.handle_input(b'r');
    assert_eq!(d.score, 9);
    assert_eq!(d.status, Status::GameOn);
}

#[test]
fn other_keys_feed_the_seed() {
    let mut d = SnakeDriver::new();
    d.handle_input(b'q');
    assert_eq!(d.seed, 80 + b'q' as u32);
    d.handle_input(0);
    assert_eq!(d.seed, 80 + b'q' as u32);
}

#[test]
fn countdown_delays_moves() {
    let mut d = moving_at(5, 5);
    d.countdown = 1;
    d.tick();
    assert_eq!((d.col, d.row), (5, 5));
    assert_eq!(d.countdown, 0);
    assert_eq!(d.seed, 81);
    d.tick();
    assert_eq!((d.col, d.row), (6, 5));
    assert_eq!(d.countdown, 1);
}

#[test]
fn status_letter_is_shown() {
    let mut d = SnakeDriver::new();
    d.tick();
    assert_eq!(d.screen.peek(WIDTH / 2, 0).ch, 'G');
    d.status = Status::Paused;
    d.tick();
    assert_eq!(d.screen.peek(WIDTH / 2, 0).ch, 'P');
}

#[test]
fn tick_scenario_with_growth_owed() {
    let mut d = moving_at(5, 5);
    d.screen.plot('0', 5, 5, Pal::Snake.disp());
    d.apple_effect = 2;
    d.tick();
    assert_eq!((d.col, d.row), (6, 5));
    assert_eq!((d.oldcol, d.oldrow), (5, 5));
    // no step led into (5, 5), so it takes the start marker
    assert_eq!(sym_at(&d, 5, 5), Sym::Start);
    assert_eq!(sym_at(&d, 6, 5), Sym::Head);
    assert_eq!((d.tail_col, d.tail_row), (5, 5));
    assert_eq!(d.apple_effect, 1);
    assert_eq!(d.length, 1);
}

#[test]
fn tick_scenario_straight_body() {
    let mut d = moving_at(5, 5);
    d.oldcol = 4;
    d.screen.plot('?', 4, 5, Pal::Snake.disp());
    d.screen.plot('0', 5, 5, Pal::Snake.disp());
    d.tail_col = 4;
    d.apple_effect = 0;
    d.tick();
    assert_eq!((d.col, d.row), (6, 5));
    assert_eq!(sym_at(&d, 5, 5), Sym::Body(BodyTrail::Hori));
    // the start marker at (4, 5) is erased; its only neighbour was the head
    assert_eq!(sym_at(&d, 4, 5), Sym::Empty);
    assert_eq!((d.tail_col, d.tail_row), (4, 5));
    d.countdown = 0;
    d.tail_col = 5;
    d.tick();
    assert_eq!((d.col, d.row), (7, 5));
    assert_eq!(sym_at(&d, 5, 5), Sym::Empty);
    // the tail never moves onto the head glyph
    assert_eq!((d.tail_col, d.tail_row), (5, 5));
}

#[test]
fn tail_chase_follows_a_turn() {
    let mut d = moving_at(10, 10);
    // a path going east from (7, 10) to (8, 10), turning south into (8, 11)
    d.screen.plot('?', 7, 10, Pal::Snake.disp());
    d.screen.plot(';', 8, 10, Pal::Snake.disp());
    d.screen.plot('|', 8, 11, Pal::Snake.disp());
    d.tail_col = 7;
    d.tail_row = 10;
    d.erase_tail();
    assert_eq!((d.tail_col, d.tail_row), (8, 10));
    assert_eq!(sym_at(&d, 7, 10), Sym::Empty);
    d.erase_tail();
    assert_eq!((d.tail_col, d.tail_row), (8, 11));
    assert_eq!(sym_at(&d, 8, 10), Sym::Empty);
}

#[test]
fn tail_chase_prefers_east_then_south() {
    let mut d = moving_at(10, 10);
    d.screen.plot('?', 7, 10, Pal::Snake.disp());
    d.screen.plot('=', 8, 10, Pal::Snake.disp());
    d.screen.plot('|', 7, 11, Pal::Snake.disp());
    d.tail_col = 7;
    d.tail_row = 10;
    d.erase_tail();
    assert_eq!((d.tail_col, d.tail_row), (8, 10));
}

#[test]
fn tail_chase_wraps() {
    let mut d = moving_at(10, 10);
    d.screen.plot('=', WIDTH - 1, 10, Pal::Snake.disp());
    d.screen.plot('=', 0, 10, Pal::Snake.disp());
    d.tail_col = WIDTH - 1;
    d.tail_row = 10;
    d.erase_tail();
    assert_eq!((d.tail_col, d.tail_row), (0, 10));
}

#[test]
fn tail_chase_ignores_a_non_body_tail() {
    let mut d = moving_at(10, 10);
    d.screen.plot('0', 10, 10, Pal::Snake.disp());
    d.screen.plot('=', 11, 10, Pal::Snake.disp());
    d.erase_tail();
    assert_eq!((d.tail_col, d.tail_row), (10, 10));
    assert_eq!(sym_at(&d, 10, 10), Sym::Head);
}

#[test]
fn tail_chase_rejects_a_mismatched_neighbour() {
    let mut d = moving_at(10, 10);
    d.screen.plot('=', 7, 10, Pal::Snake.disp());
    d.screen.plot('|', 8, 10, Pal::Snake.disp());
    d.tail_col = 7;
    d.tail_row = 10;
    d.erase_tail();
    assert_eq!((d.tail_col, d.tail_row), (7, 10));
    assert_eq!(sym_at(&d, 7, 10), Sym::Empty);
}

#[test]
fn find_vacant_skips_occupied_cells() {
    let mut g = Grid::new();
    g.plot('=', 5, 5, Pal::Snake.disp());
    g.plot('0', 6, 5, Pal::Snake.disp());
    g.plot('&', 7, 5, Pal::Appl.disp());
    g.plot('|', 8, 5, Pal::Wall.disp());
    g.plot(' ', 9, 5, ColorCode::new(Color::Blue, Color::Blue));
    g.plot('?', 10, 5, Pal::Snake.disp());
    assert_eq!(g.find_vacant((5, 5)), Some((11, 5)));
    assert_eq!(g.find_vacant((4, 5)), Some((4, 5)));
}

#[test]
fn find_vacant_wraps_along_the_row_then_down() {
    let mut g = Grid::new();
    for col in 0..WIDTH {
        if col != 2 {
            g.plot('=', col, 3, Pal::Snake.disp());
        }
        g.plot('=', col, 4, Pal::Snake.disp());
    }
    assert_eq!(g.find_vacant((50, 3)), Some((2, 3)));
    assert_eq!(g.find_vacant((50, 4)), Some((50, 5)));
    assert_eq!(g.find_vacant((50, HEIGHT - 1)), Some((50, HEIGHT - 1)));
}

#[test]
fn find_vacant_on_a_full_board() {
    let mut g = Grid::new();
    for row in 0..HEIGHT {
        for col in 0..WIDTH {
            g.plot('=', col, row, Pal::Snake.disp());
        }
    }
    assert_eq!(g.find_vacant((3, 3)), None);
}

#[test]
fn apple_is_placed_on_a_vacant_cell() {
    let mut d = SnakeDriver::new();
    d.draw_frame();
    d.place_apple();
    assert_eq!(d.status, Status::GameOn);
    assert_eq!(sym_at(&d, d.apple_x, d.apple_y), Sym::Apple);
    assert!(d.apple_x >= 1 && d.apple_x <= WIDTH - 2);
    assert!(d.apple_y >= 2 && d.apple_y <= HEIGHT - 2);
    // seed 80 gives 524880 twice stirred; the next draw stirs it twice more
    assert_eq!(d.apple_x, (524880 % (WIDTH as u32 - 2) + 1) as usize);
}

#[test]
fn full_board_pauses() {
    let mut d = SnakeDriver::new();
    for row in 0..HEIGHT {
        for col in 0..WIDTH {
            d.screen.plot('=', col, row, Pal::Snake.disp());
        }
    }
    d.place_apple();
    assert_eq!(d.status, Status::Paused);
    assert_eq!((d.apple_x, d.apple_y), (0, 0));
}

#[test]
fn a_game_from_the_start() {
    let mut d = SnakeDriver::default();
    d.draw_frame();
    d.tick();
    assert_eq!((d.col, d.row), (20, 12));
    d.tick();
    assert_eq!((d.col, d.row), (21, 12));
    assert_eq!(sym_at(&d, 20, 12), Sym::Start);
    assert_eq!(sym_at(&d, d.apple_x, d.apple_y), Sym::Apple);
    for _ in 0..6 {
        d.tick();
    }
    assert_eq!(d.status, Status::GameOn);
    assert_eq!((d.col, d.row), (24, 12));
    assert_eq!(d.length, 3);
    assert_eq!((d.tail_col, d.tail_row), (21, 12));
    assert_eq!(sym_at(&d, 20, 12), Sym::Empty);
    assert_eq!(sym_at(&d, 21, 12), Sym::Body(BodyTrail::Hori));
}

#[test]
fn running_into_the_wall_ends_the_game() {
    let mut d = SnakeDriver::new();
    d.draw_frame();
    d.col = WIDTH - 2;
    d.oldcol = WIDTH - 3;
    d.countdown = 0;
    d.apple_effect = 5;
    d.tick();
    assert_eq!(d.status, Status::Death);
    assert_eq!(d.col, WIDTH - 2);
    d.tick();
    assert_eq!(d.status, Status::GameOver);
}
