//! The animation driver: one state struct owning the color, the travel
//! direction, the turn countdown, both wraparound coordinates and the
//! random source, and the per-frame step that advances them all and picks
//! the glyph to draw.

use crate::color::{spec_advance, Color};
use crate::coord::WrapU32;
use crate::direction::{
    corner_glyph_spec, is_corner_glyph, is_quarter_turn, lemma_every_turn_has_corner,
    lemma_turn_is_quarter_turn, straight_glyph_spec, turn_spec, Direction,
};
use crate::rng::{rng_bool, rng_u32};
use vstd::prelude::*;

verus! {

/// The whole animation state, created once at startup and stepped once per
/// frame for the life of the process.
pub struct State {
    pub color: Color,
    pub dir: Direction,
    pub countdown: u32,
    pub x: WrapU32,
    pub y: WrapU32,
    pub rng: rand::rngs::ThreadRng,
}

impl State {
    /// Both coordinates respect their bounds, and the countdown stays under
    /// the reseed bound of 20 frames.
    pub open spec fn wf(self) -> bool {
        self.x.wf() && self.y.wf() && self.countdown < 20
    }

    /// Seed a fresh state for a grid whose column coordinate wraps in
    /// `[0, width]` and row coordinate in `[0, height]`: position,
    /// direction, color and countdown all drawn from the random source,
    /// which the state then owns.
    pub fn from_rng(width: u32, height: u32, rng: rand::rngs::ThreadRng) -> (s: State)
        requires
            1 <= width < u32::MAX,
            1 <= height < u32::MAX,
        ensures
            s.wf(),
            s.x.max == width,
            s.y.max == height,
            s.x.n < width,
            s.y.n < height,
    {
        let mut rng = rng;
        let rx = rng_u32(&mut rng) % width;
        let ry = rng_u32(&mut rng) % height;
        let x = WrapU32 { n: rx, max: width };
        let y = WrapU32 { n: ry, max: height };
        let dir = Direction::from_rng(&mut rng);
        let color = Color::from_rng(&mut rng);
        let countdown = rng_u32(&mut rng) % 20;
        State { color, dir, countdown, x, y, rng }
    }

    /// One animation frame, with the frame's random draws handed in as
    /// plain values: `coin` decides which way a due turn goes, and `fresh`
    /// is the countdown after a turn. The color advances one hue step, the
    /// position moves one cell in the current direction with wraparound,
    /// and then either the countdown has run out - the direction turns a
    /// quarter and the matching corner glyph comes back - or the countdown
    /// drops by one and the straight bar glyph comes back.
    pub fn step_with(&mut self, coin: bool, fresh: u32) -> (glyph: char)
        requires
            old(self).wf(),
            fresh < 20,
        ensures
            final(self).wf(),
            final(self).color == spec_advance(old(self).color),
            final(self).x.max == old(self).x.max,
            final(self).y.max == old(self).y.max,
            old(self).dir == Direction::Left ==> final(self).x == old(self).x.spec_sub(1),
            old(self).dir == Direction::Right ==> final(self).x == old(self).x.spec_add(1),
            old(self).dir == Direction::Up ==> final(self).y == old(self).y.spec_sub(1),
            old(self).dir == Direction::Down ==> final(self).y == old(self).y.spec_add(1),
            old(self).dir == Direction::Left || old(self).dir == Direction::Right ==> final(self).y == old(self).y,
            old(self).dir == Direction::Up || old(self).dir == Direction::Down ==> final(self).x == old(self).x,
            old(self).countdown == 0 ==> final(self).dir == turn_spec(old(self).dir, coin),
            old(self).countdown == 0 ==> final(self).countdown == fresh,
            old(self).countdown == 0 ==> glyph == corner_glyph_spec(old(self).dir, final(self).dir),
            old(self).countdown > 0 ==> final(self).dir == old(self).dir,
            old(self).countdown > 0 ==> final(self).countdown == old(self).countdown - 1,
            old(self).countdown > 0 ==> glyph == straight_glyph_spec(old(self).dir),
    {
        self.color = self.color.advance();
        match self.dir {
            Direction::Left => {
                self.x = self.x.sub(1);
            },
            Direction::Right => {
                self.x = self.x.add(1);
            },
            Direction::Down => {
                self.y = self.y.add(1);
            },
            Direction::Up => {
                self.y = self.y.sub(1);
            },
        }
        if self.countdown == 0 {
            self.countdown = fresh;
            self.dir.turn_and_to_char(coin)
        } else {
            self.countdown = self.countdown - 1;
            self.dir.to_char()
        }
    }

    /// One animation frame, drawing the turn coin and the countdown reseed
    /// from the owned random source. Whatever the source returns: the color
    /// advances one hue step, the position moves one cell with wraparound,
    /// and a due turn goes a quarter turn with its corner glyph while any
    /// other frame keeps the direction and returns the straight bar.
    pub fn step(&mut self) -> (glyph: char)
        requires
            old(self).wf(),
        ensures
            final(self).wf(),
            final(self).color == spec_advance(old(self).color),
            final(self).x.max == old(self).x.max,
            final(self).y.max == old(self).y.max,
            old(self).dir == Direction::Left ==> final(self).x == old(self).x.spec_sub(1),
            old(self).dir == Direction::Right ==> final(self).x == old(self).x.spec_add(1),
            old(self).dir == Direction::Up ==> final(self).y == old(self).y.spec_sub(1),
            old(self).dir == Direction::Down ==> final(self).y == old(self).y.spec_add(1),
            old(self).dir == Direction::Left || old(self).dir == Direction::Right ==> final(self).y == old(self).y,
            old(self).dir == Direction::Up || old(self).dir == Direction::Down ==> final(self).x == old(self).x,
            old(self).countdown == 0 ==> is_quarter_turn(old(self).dir, final(self).dir),
            old(self).countdown == 0 ==> glyph == corner_glyph_spec(old(self).dir, final(self).dir),
            old(self).countdown == 0 ==> is_corner_glyph(glyph),
            old(self).countdown > 0 ==> final(self).dir == old(self).dir,
            old(self).countdown > 0 ==> final(self).countdown == old(self).countdown - 1,
            old(self).countdown > 0 ==> glyph == straight_glyph_spec(old(self).dir),
    {
        if self.countdown == 0 {
            let fresh = rng_u32(&mut self.rng) % 20;
            let coin = rng_bool(&mut self.rng);
            let glyph = self.step_with(coin, fresh);
            proof {
                lemma_turn_is_quarter_turn(old(self).dir, coin);
                lemma_every_turn_has_corner(old(self).dir, coin);
            }
            glyph
        } else {
            self.step_with(false, 0)
        }
    }
}

} // verus!
