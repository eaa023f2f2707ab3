//! Cell symbols, the characters and colours that display them, and the
//! orientation of body segments.

use vstd::prelude::*;

verus! {

/// Game status.
#[derive(Clone, Copy, Debug, PartialEq, Eq, Structural)]
pub enum Status {
    GameOn,
    Paused,
    Death,
    GameOver,
    StartScreen,
}

/// Shape of a body segment: which two neighbours it links.
///
/// `Right2Up` (`J`) links west and north, `Left2Up` (`L`) east and north,
/// `Right2Down` (`;`) west and south, `Left2Down` (`r`) east and south.
#[derive(Clone, Copy, Debug, PartialEq, Eq, Structural)]
pub enum BodyTrail {
    Hori,
    Vert,
    Right2Up,
    Left2Up,
    Right2Down,
    Left2Down,
}

/// A direction on the grid: east is `+col`, south is `+row`.
#[derive(Clone, Copy, Debug, PartialEq, Eq, Structural)]
pub enum Dir {
    East,
    South,
    West,
    North,
}

/// What a cell of the grid means to the game.
#[derive(Clone, Copy, Debug, PartialEq, Eq, Structural)]
pub enum Sym {
    Body(BodyTrail),
    Head,
    Apple,
    /// A character with no meaning of its own, shown as it is.
    Doug(char),
    Start,
    /// What a read outside the grid, or of an unknown character, yields.
    NaN,
    Empty,
}

/// The colours of a text-mode display.
#[derive(Clone, Copy, Debug, PartialEq, Eq, Structural)]
pub enum Color {
    Black,
    Blue,
    Green,
    Cyan,
    Red,
    Magenta,
    Brown,
    LightGray,
    DarkGray,
    LightBlue,
    LightGreen,
    LightCyan,
    LightRed,
    Pink,
    Yellow,
    White,
}

/// A foreground and a background colour.
#[derive(Clone, Copy, Debug, PartialEq, Eq, Structural)]
pub struct ColorCode {
    pub foreground: Color,
    pub background: Color,
}

impl ColorCode {
    pub fn new(foreground: Color, background: Color) -> (r: ColorCode)
        ensures
            r.foreground == foreground,
            r.background == background,
    {
        ColorCode { foreground, background }
    }

    pub fn background(&self) -> (r: Color)
        ensures
            r == self.background,
    {
        self.background
    }
}

/// The palette entries that the game draws with.
#[derive(Clone, Copy, Debug, PartialEq, Eq, Structural)]
pub enum Pal {
    Snake,
    Appl,
    Wall,
    Text,
    EmptySpace,
}

/// The colours of a palette entry.
pub open spec fn pal_colors(p: Pal) -> ColorCode {
    match p {
        Pal::Snake => ColorCode { foreground: Color::Cyan, background: Color::Black },
        Pal::Wall => ColorCode { foreground: Color::Yellow, background: Color::Red },
        Pal::Appl => ColorCode { foreground: Color::Red, background: Color::Black },
        Pal::Text => ColorCode { foreground: Color::White, background: Color::Blue },
        Pal::EmptySpace => ColorCode { foreground: Color::Black, background: Color::Black },
    }
}

impl Pal {
    pub fn disp(self) -> (r: ColorCode)
        ensures
            r == pal_colors(self),
    {
        match self {
            Pal::Snake => ColorCode::new(Color::Cyan, Color::Black),
            Pal::Wall => ColorCode::new(Color::Yellow, Color::Red),
            Pal::Appl => ColorCode::new(Color::Red, Color::Black),
            Pal::Text => ColorCode::new(Color::White, Color::Blue),
            Pal::EmptySpace => ColorCode::new(Color::Black, Color::Black),
        }
    }
}

/// The character that displays a symbol.
pub open spec fn glyph_of(s: Sym) -> char {
    match s {
        Sym::Head => '0',
        Sym::Body(BodyTrail::Hori) => '=',
        Sym::Body(BodyTrail::Vert) => '|',
        Sym::Body(BodyTrail::Right2Up) => 'J',
        Sym::Body(BodyTrail::Left2Up) => 'L',
        Sym::Body(BodyTrail::Right2Down) => ';',
        Sym::Body(BodyTrail::Left2Down) => 'r',
        Sym::Apple => '&',
        Sym::Doug(c) => c,
        Sym::Start => '?',
        Sym::Empty => ' ',
        Sym::NaN => ' ',
    }
}

/// The symbol that a displayed character stands for.
pub open spec fn sym_of(c: char) -> Sym {
    if c == '0' {
        Sym::Head
    } else if c == '?' {
        Sym::Start
    } else if c == '=' {
        Sym::Body(BodyTrail::Hori)
    } else if c == '|' {
        Sym::Body(BodyTrail::Vert)
    } else if c == 'J' {
        Sym::Body(BodyTrail::Right2Up)
    } else if c == 'L' {
        Sym::Body(BodyTrail::Left2Up)
    } else if c == ';' {
        Sym::Body(BodyTrail::Right2Down)
    } else if c == 'r' {
        Sym::Body(BodyTrail::Left2Down)
    } else if c == '&' {
        Sym::Apple
    } else if c == ' ' {
        Sym::Empty
    } else {
        Sym::NaN
    }
}

impl Sym {
    pub fn disp(self) -> (r: char)
        ensures
            r == glyph_of(self),
    {
        match self {
            Sym::Head => '0',
            Sym::Body(BodyTrail::Hori) => '=',
            Sym::Body(BodyTrail::Vert) => '|',
            Sym::Body(BodyTrail::Right2Up) => 'J',
            Sym::Body(BodyTrail::Left2Up) => 'L',
            Sym::Body(BodyTrail::Right2Down) => ';',
            Sym::Body(BodyTrail::Left2Down) => 'r',
            Sym::Apple => '&',
            Sym::Doug(c) => c,
            Sym::Start => '?',
            Sym::Empty => ' ',
            Sym::NaN => ' ',
        }
    }

    pub fn from(c: char) -> (r: Sym)
        ensures
            r == sym_of(c),
    {
        match c {
            '0' => Sym::Head,
            '?' => Sym::Start,
            '=' => Sym::Body(BodyTrail::Hori),
            '|' => Sym::Body(BodyTrail::Vert),
            'J' => Sym::Body(BodyTrail::Right2Up),
            'L' => Sym::Body(BodyTrail::Left2Up),
            ';' => Sym::Body(BodyTrail::Right2Down),
            'r' => Sym::Body(BodyTrail::Left2Down),
            '&' => Sym::Apple,
            ' ' => Sym::Empty,
            _ => Sym::NaN,
        }
    }
}

/// Decoding the character of a body segment gives the segment back, so
/// encoding after decoding leaves that character as it was.
pub proof fn lemma_body_glyph_round_trip(t: BodyTrail)
    ensures
        sym_of(glyph_of(Sym::Body(t))) == Sym::Body(t),
        glyph_of(sym_of(glyph_of(Sym::Body(t)))) == glyph_of(Sym::Body(t)),
{
}

/// Every character that decodes to a known symbol is that symbol's glyph.
pub proof fn lemma_decoded_glyph_round_trip(c: char)
    requires
        sym_of(c) != Sym::NaN,
    ensures
        glyph_of(sym_of(c)) == c,
{
}

/// Whether a segment of shape `t` links to its neighbour in direction `d`.
pub open spec fn links(t: BodyTrail, d: Dir) -> bool {
    match d {
        Dir::East => t == BodyTrail::Hori || t == BodyTrail::Left2Up || t == BodyTrail::Left2Down,
        Dir::West => t == BodyTrail::Hori || t == BodyTrail::Right2Up || t == BodyTrail::Right2Down,
        Dir::South => t == BodyTrail::Vert || t == BodyTrail::Right2Down || t == BodyTrail::Left2Down,
        Dir::North => t == BodyTrail::Vert || t == BodyTrail::Right2Up || t == BodyTrail::Left2Up,
    }
}

/// The direction back.
pub open spec fn opposite(d: Dir) -> Dir {
    match d {
        Dir::East => Dir::West,
        Dir::West => Dir::East,
        Dir::South => Dir::North,
        Dir::North => Dir::South,
    }
}

impl BodyTrail {
    /// Whether this segment links to its neighbour in direction `d`.
    pub fn links_to(self, d: Dir) -> (r: bool)
        ensures
            r == links(self, d),
    {
        match d {
            Dir::East => match self {
                BodyTrail::Hori | BodyTrail::Left2Up | BodyTrail::Left2Down => true,
                _ => false,
            },
            Dir::West => match self {
                BodyTrail::Hori | BodyTrail::Right2Up | BodyTrail::Right2Down => true,
                _ => false,
            },
            Dir::South => match self {
                BodyTrail::Vert | BodyTrail::Right2Down | BodyTrail::Left2Down => true,
                _ => false,
            },
            Dir::North => match self {
                BodyTrail::Vert | BodyTrail::Right2Up | BodyTrail::Left2Up => true,
                _ => false,
            },
        }
    }
}

impl Dir {
    pub fn opposite(self) -> (r: Dir)
        ensures
            r == opposite(self),
    {
        match self {
            Dir::East => Dir::West,
            Dir::West => Dir::East,
            Dir::South => Dir::North,
            Dir::North => Dir::South,
        }
    }
}

/// The glyph left in the cell that the head has just vacated, from the step
/// that entered that cell (`odx`, `ody`) and the step that leaves it (`ndx`,
/// `ndy`). Steps that are not unit steps give the placeholder `?`.
pub open spec fn trail_sym(odx: int, ody: int, ndx: int, ndy: int) -> Sym {
    if (odx, ody, ndx, ndy) == (-1int, 0int, 0int, -1int) || (odx, ody, ndx, ndy) == (0int, 1int, 1int, 0int) {
        Sym::Body(BodyTrail::Left2Up)
    } else if (odx, ody, ndx, ndy) == (1int, 0int, 0int, 1int) || (odx, ody, ndx, ndy) == (0int, -1int, -1int, 0int) {
        Sym::Body(BodyTrail::Right2Down)
    } else if (odx, ody, ndx, ndy) == (-1int, 0int, 0int, 1int) || (odx, ody, ndx, ndy) == (0int, -1int, 1int, 0int) {
        Sym::Body(BodyTrail::Left2Down)
    } else if (odx, ody, ndx, ndy) == (1int, 0int, 0int, -1int) || (odx, ody, ndx, ndy) == (0int, 1int, -1int, 0int) {
        Sym::Body(BodyTrail::Right2Up)
    } else if (odx, ody, ndx, ndy) == (1int, 0int, 1int, 0int) || (odx, ody, ndx, ndy) == (-1int, 0int, -1int, 0int) {
        Sym::Body(BodyTrail::Hori)
    } else if (odx, ody, ndx, ndy) == (0int, 1int, 0int, 1int) || (odx, ody, ndx, ndy) == (0int, -1int, 0int, -1int) {
        Sym::Body(BodyTrail::Vert)
    } else {
        Sym::Doug('?')
    }
}

/// Chooses the glyph for a vacated head cell.
pub fn choose_trail(odx: i8, ody: i8, ndx: i8, ndy: i8) -> (r: Sym)
    ensures
        r == trail_sym(odx as int, ody as int, ndx as int, ndy as int),
{
    match (odx, ody, ndx, ndy) {
        (-1, 0, 0, -1) => Sym::Body(BodyTrail::Left2Up),
        (0, 1, 1, 0) => Sym::Body(BodyTrail::Left2Up),
        (1, 0, 0, 1) => Sym::Body(BodyTrail::Right2Down),
        (0, -1, -1, 0) => Sym::Body(BodyTrail::Right2Down),
        (-1, 0, 0, 1) => Sym::Body(BodyTrail::Left2Down),
        (0, -1, 1, 0) => Sym::Body(BodyTrail::Left2Down),
        (1, 0, 0, -1) => Sym::Body(BodyTrail::Right2Up),
        (0, 1, -1, 0) => Sym::Body(BodyTrail::Right2Up),
        (1, 0, 1, 0) => Sym::Body(BodyTrail::Hori),
        (-1, 0, -1, 0) => Sym::Body(BodyTrail::Hori),
        (0, 1, 0, 1) => Sym::Body(BodyTrail::Vert),
        (0, -1, 0, -1) => Sym::Body(BodyTrail::Vert),
        _ => Sym::Doug('?'),
    }
}

/// A turn glyph links the cell it was entered from and the cell it is left
/// towards; a straight glyph links both cells along its axis.
pub proof fn lemma_trail_links_both_ends(odx: int, ody: int, ndx: int, ndy: int)
    requires
        (odx == 0) != (ody == 0),
        -1 <= odx <= 1 && -1 <= ody <= 1,
        (ndx == 0) != (ndy == 0),
        -1 <= ndx <= 1 && -1 <= ndy <= 1,
        !(odx == -ndx && ody == -ndy),
    ensures
        trail_sym(odx, ody, ndx, ndy) is Body,
        links(trail_sym(odx, ody, ndx, ndy)->Body_0, step_dir(ndx, ndy)),
        links(trail_sym(odx, ody, ndx, ndy)->Body_0, opposite(step_dir(odx, ody))),
{
}

/// The direction of a unit step.
pub open spec fn step_dir(dx: int, dy: int) -> Dir {
    if dx == 1 {
        Dir::East
    } else if dx == -1 {
        Dir::West
    } else if dy == 1 {
        Dir::South
    } else {
        Dir::North
    }
}

} // verus!
