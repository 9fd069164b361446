//! Travel direction of the wandering segment, the 90-degree turn table,
//! and the box-drawing glyphs: bars for straight motion, corners for turns.

use vstd::prelude::*;

verus! {

/// Vertical double bar, drawn while moving up or down.
pub const VERTICAL: char = '\u{2551}';

/// Horizontal double bar, drawn while moving left or right.
pub const HORIZONTAL: char = '\u{2550}';

/// Top-left corner, drawn when the trail turns between rightward and
/// downward travel.
pub const TOP_LEFT: char = '\u{2554}';

/// Top-right corner, drawn when the trail turns between leftward and
/// downward travel.
pub const TOP_RIGHT: char = '\u{2557}';

/// Bottom-left corner, drawn when the trail turns between rightward and
/// upward travel.
pub const BOTTOM_LEFT: char = '\u{255A}';

/// Bottom-right corner, drawn when the trail turns between leftward and
/// upward travel.
pub const BOTTOM_RIGHT: char = '\u{255D}';

/// The four travel directions of the segment.
#[derive(Copy, Clone, Debug, PartialEq, Eq, Structural)]
pub enum Direction {
    Left,
    Down,
    Up,
    Right,
}

/// The direction pointing exactly opposite to `d`.
pub open spec fn opposite(d: Direction) -> Direction {
    match d {
        Direction::Left => Direction::Right,
        Direction::Right => Direction::Left,
        Direction::Up => Direction::Down,
        Direction::Down => Direction::Up,
    }
}

/// The fixed turn table: from a vertical direction the coin picks Left or
/// Right; from a horizontal direction it picks Down or Up.
pub open spec fn turn_spec(d: Direction, coin: bool) -> Direction {
    match d {
        Direction::Up => if coin { Direction::Left } else { Direction::Right },
        Direction::Down => if coin { Direction::Left } else { Direction::Right },
        Direction::Left => if coin { Direction::Down } else { Direction::Up },
        Direction::Right => if coin { Direction::Down } else { Direction::Up },
    }
}

/// `b` is a quarter turn away from `a`: neither straight on nor a reversal.
pub open spec fn is_quarter_turn(a: Direction, b: Direction) -> bool {
    b != a && b != opposite(a)
}

/// The bar glyph for straight travel in direction `d`.
pub open spec fn straight_glyph_spec(d: Direction) -> char {
    match d {
        Direction::Up | Direction::Down => VERTICAL,
        Direction::Right | Direction::Left => HORIZONTAL,
    }
}

/// The corner glyph for a turn from `old_d` to `new_d`, covering the eight
/// pairs a quarter turn can produce. Pairs that are not quarter turns never
/// arise in the animation; the table falls back to a horizontal bar there
/// so that it stays total.
pub open spec fn corner_glyph_spec(old_d: Direction, new_d: Direction) -> char {
    match (old_d, new_d) {
        (Direction::Right, Direction::Down) | (Direction::Up, Direction::Left) => TOP_RIGHT,
        (Direction::Down, Direction::Right) | (Direction::Left, Direction::Up) => BOTTOM_LEFT,
        (Direction::Down, Direction::Left) | (Direction::Right, Direction::Up) => BOTTOM_RIGHT,
        (Direction::Up, Direction::Right) | (Direction::Left, Direction::Down) => TOP_LEFT,
        _ => HORIZONTAL,
    }
}

/// `c` is one of the four corner glyphs.
pub open spec fn is_corner_glyph(c: char) -> bool {
    c == TOP_LEFT || c == TOP_RIGHT || c == BOTTOM_LEFT || c == BOTTOM_RIGHT
}

impl Direction {
    /// The per-frame movement step of this direction, as (column, row)
    /// deltas: left and up are negative, right and down positive.
    pub fn movement_delta(&self) -> (r: (i32, i32))
        ensures
            *self == Direction::Left ==> r == (-1i32, 0i32),
            *self == Direction::Right ==> r == (1i32, 0i32),
            *self == Direction::Up ==> r == (0i32, -1i32),
            *self == Direction::Down ==> r == (0i32, 1i32),
    {
        match self {
            Direction::Left => (-1, 0),
            Direction::Right => (1, 0),
            Direction::Up => (0, -1),
            Direction::Down => (0, 1),
        }
    }

    /// The bar glyph for straight travel.
    pub fn to_char(&self) -> (c: char)
        ensures
            c == straight_glyph_spec(*self),
    {
        match self {
            Direction::Up | Direction::Down => VERTICAL,
            Direction::Right | Direction::Left => HORIZONTAL,
        }
    }

    /// The direction the fixed turn table picks for this direction and the
    /// given coin flip: always a quarter turn, never straight on or back.
    pub fn turn(&self, coin: bool) -> (r: Direction)
        ensures
            r == turn_spec(*self, coin),
            is_quarter_turn(*self, r),
    {
        match self {
            Direction::Up => if coin { Direction::Left } else { Direction::Right },
            Direction::Down => if coin { Direction::Left } else { Direction::Right },
            Direction::Left => if coin { Direction::Down } else { Direction::Up },
            Direction::Right => if coin { Direction::Down } else { Direction::Up },
        }
    }

    /// Turn by the coin flip, replace this direction with the new one, and
    /// return the corner glyph joining the old and new travel directions.
    pub fn turn_and_to_char(&mut self, coin: bool) -> (c: char)
        ensures
            *final(self) == turn_spec(*old(self), coin),
            is_quarter_turn(*old(self), *final(self)),
            c == corner_glyph_spec(*old(self), *final(self)),
            is_corner_glyph(c),
    {
        let new = self.turn(coin);
        let c = match (*self, new) {
            (Direction::Right, Direction::Down) | (Direction::Up, Direction::Left) => TOP_RIGHT,
            (Direction::Down, Direction::Right) | (Direction::Left, Direction::Up) => BOTTOM_LEFT,
            (Direction::Down, Direction::Left) | (Direction::Right, Direction::Up) => BOTTOM_RIGHT,
            (Direction::Up, Direction::Right) | (Direction::Left, Direction::Down) => TOP_LEFT,
            _ => HORIZONTAL,
        };
        *self = new;
        c
    }

    /// A direction drawn uniformly from the random source.
    pub fn from_rng(rng: &mut rand::rngs::ThreadRng) -> Direction {
        Direction::from_index(crate::rng::rng_u32(rng))
    }

    /// The direction with the given index in the fixed order
    /// Left, Down, Up, Right; any value is taken modulo 4, so a uniformly
    /// random `u32` seeds a uniformly random direction.
    pub fn from_index(v: u32) -> (r: Direction)
        ensures
            v % 4 == 0 ==> r == Direction::Left,
            v % 4 == 1 ==> r == Direction::Down,
            v % 4 == 2 ==> r == Direction::Up,
            v % 4 == 3 ==> r == Direction::Right,
    {
        let k = v % 4;
        if k == 0 {
            Direction::Left
        } else if k == 1 {
            Direction::Down
        } else if k == 2 {
            Direction::Up
        } else {
            Direction::Right
        }
    }
}

/// A turn never continues straight on and never reverses: for every
/// direction and either coin flip, the turn table yields one of the two
/// perpendicular directions.
pub proof fn lemma_turn_is_quarter_turn(d: Direction, coin: bool)
    ensures
        turn_spec(d, coin) != d,
        turn_spec(d, coin) != opposite(d),
{
}

/// Every reachable turn has a corner: for every direction and either coin
/// flip, the ordered pair of old and new direction maps to one of the four
/// corner glyphs, so all eight reachable pairs are covered.
pub proof fn lemma_every_turn_has_corner(d: Direction, coin: bool)
    ensures
        is_corner_glyph(corner_glyph_spec(d, turn_spec(d, coin))),
{
}

} // verus!
