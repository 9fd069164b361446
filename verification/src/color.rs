//! Hue-cycling color: an RGB byte triple whose hue advances by a fixed
//! 15-degree step per frame.
//!
//! The classical conversion runs RGB -> HSV, adds 15 degrees to the hue,
//! and runs HSV -> RGB back. Over byte channels every quantity involved is
//! a rational with a small denominator, so the whole round trip is computed
//! here exactly in integers: hue angles are scaled by the chroma
//! `delta = max - min`, and the one fractional channel of the result is
//! recovered with a single ceiling division. The final truncation to bytes
//! is the same floor the classical float pipeline takes.

use vstd::arithmetic::div_mod::{
    lemma_div_is_ordered, lemma_div_pos_is_pos, lemma_fundamental_div_mod_converse_div,
    lemma_mod_bound,
};
use vstd::prelude::*;

verus! {

/// The current display color, one byte per channel.
#[derive(Copy, Clone, Debug, PartialEq, Eq, Structural)]
pub struct Color {
    pub r: u8,
    pub g: u8,
    pub b: u8,
}

/// The largest channel of `c`: the HSV value, scaled to `[0, 255]`.
pub open spec fn chan_max(c: Color) -> int {
    if c.r >= c.g && c.r >= c.b {
        c.r as int
    } else if c.g >= c.b {
        c.g as int
    } else {
        c.b as int
    }
}

/// The smallest channel of `c`.
pub open spec fn chan_min(c: Color) -> int {
    if c.r <= c.g && c.r <= c.b {
        c.r as int
    } else if c.g <= c.b {
        c.g as int
    } else {
        c.b as int
    }
}

/// The chroma of `c`: largest minus smallest channel. Zero exactly for the
/// achromatic (gray) colors.
pub open spec fn chroma(c: Color) -> int {
    chan_max(c) - chan_min(c)
}

/// The HSV hue of `c` in degrees, scaled by `chroma(c)` to stay integral:
/// the standard 60-degree sector formulas, with ties resolved toward the
/// red then the green sector, and hue 0 left undefined-as-zero handled by
/// the caller for gray colors. Meaningful only when `chroma(c) > 0`; the
/// result then lies in `[0, 360 * chroma(c))`.
pub open spec fn hue_scaled(c: Color) -> int {
    let d = chroma(c);
    if c.r >= c.g && c.r >= c.b {
        if c.g >= c.b {
            60 * (c.g - c.b)
        } else {
            60 * (c.g - c.b) + 360 * d
        }
    } else if c.g >= c.b {
        120 * d + 60 * (c.b - c.r)
    } else {
        240 * d + 60 * (c.r - c.g)
    }
}

/// The hue after one 15-degree advance, still scaled by the chroma and
/// wrapped into `[0, 360 * chroma(c))`. Meaningful only when
/// `chroma(c) > 0`.
pub open spec fn advanced_hue_scaled(c: Color) -> int {
    (hue_scaled(c) + 15 * chroma(c)) % (360 * chroma(c))
}

/// The one channel of the advanced color that is neither the maximum nor
/// the minimum: `min + delta * (1 - |((hue/60) mod 2) - 1|)` from the HSV
/// reconstruction, floored to a byte. With the hue scaled by the chroma the
/// floor becomes a single ceiling division by 60. Meaningful only when
/// `chroma(c) > 0`; the result then lies in `[chan_min(c), chan_max(c)]`.
pub open spec fn mid_channel(c: Color) -> int {
    let d = chroma(c);
    let q = advanced_hue_scaled(c) % (120 * d);
    let t = if q >= 60 * d {
        q - 60 * d
    } else {
        60 * d - q
    };
    chan_max(c) - (t + 59) / 60
}

/// The color one 15-degree hue step ahead of `c`: the advanced hue picks
/// one of the six 60-degree sectors, which assigns the maximum, middle and
/// minimum channels. A gray color has no hue and is left unchanged.
pub open spec fn spec_advance(c: Color) -> Color {
    let d = chroma(c);
    if d == 0 {
        c
    } else {
        let h = advanced_hue_scaled(c);
        let mx = chan_max(c) as u8;
        let mn = chan_min(c) as u8;
        let xb = mid_channel(c) as u8;
        if h < 60 * d {
            Color { r: mx, g: xb, b: mn }
        } else if h < 120 * d {
            Color { r: xb, g: mx, b: mn }
        } else if h < 180 * d {
            Color { r: mn, g: mx, b: xb }
        } else if h < 240 * d {
            Color { r: mn, g: xb, b: mx }
        } else if h < 300 * d {
            Color { r: xb, g: mn, b: mx }
        } else {
            Color { r: mx, g: mn, b: xb }
        }
    }
}

/// The middle channel of the advanced color stays between the smallest and
/// the largest channel of the original.
pub proof fn lemma_mid_channel_bounds(c: Color)
    requires
        chroma(c) > 0,
    ensures
        chan_min(c) <= mid_channel(c) <= chan_max(c),
{
    let d = chroma(c);
    let h = advanced_hue_scaled(c);
    lemma_mod_bound(hue_scaled(c) + 15 * d, 360 * d);
    let q = h % (120 * d);
    lemma_mod_bound(h, 120 * d);
    let t = if q >= 60 * d {
        q - 60 * d
    } else {
        60 * d - q
    };
    assert(0 <= t <= 60 * d);
    lemma_div_pos_is_pos(t + 59, 60);
    lemma_div_is_ordered(t + 59, 60 * d + 59, 60);
    lemma_fundamental_div_mod_converse_div(60 * d + 59, 60, d, 59);
}

/// Advancing the hue never changes the HSV value or saturation: the largest
/// and the smallest channel of the color are preserved exactly.
pub proof fn lemma_advance_preserves_value_and_saturation(c: Color)
    ensures
        chan_max(spec_advance(c)) == chan_max(c),
        chan_min(spec_advance(c)) == chan_min(c),
{
    if chroma(c) > 0 {
        lemma_mid_channel_bounds(c);
    }
}

impl Color {
    /// A color with each channel drawn uniformly from the random source.
    pub fn from_rng(rng: &mut rand::rngs::ThreadRng) -> Color {
        let r = crate::rng::rng_u8(rng);
        let g = crate::rng::rng_u8(rng);
        let b = crate::rng::rng_u8(rng);
        Color { r, g, b }
    }

    /// Advance the hue of this color by 15 degrees, keeping value and
    /// saturation; gray colors, which carry no hue, come back unchanged.
    pub fn advance(self) -> (res: Color)
        ensures
            res == spec_advance(self),
            chan_max(res) == chan_max(self),
            chan_min(res) == chan_min(self),
    {
        proof {
            lemma_advance_preserves_value_and_saturation(self);
        }
        let r = self.r as u32;
        let g = self.g as u32;
        let b = self.b as u32;
        let mx = if r >= g && r >= b {
            r
        } else if g >= b {
            g
        } else {
            b
        };
        let mn = if r <= g && r <= b {
            r
        } else if g <= b {
            g
        } else {
            b
        };
        let d = mx - mn;
        if d == 0 {
            return self;
        }
        let hd = if r >= g && r >= b {
            if g >= b {
                60 * (g - b)
            } else {
                360 * d - 60 * (b - g)
            }
        } else if g >= b {
            120 * d + 60 * b - 60 * r
        } else {
            240 * d + 60 * r - 60 * g
        };
        let h = (hd + 15 * d) % (360 * d);
        let q = h % (120 * d);
        let t = if q >= 60 * d {
            q - 60 * d
        } else {
            60 * d - q
        };
        proof {
            lemma_mid_channel_bounds(self);
        }
        let xb = mx - (t + 59) / 60;
        let mxb = mx as u8;
        let mnb = mn as u8;
        let xbb = xb as u8;
        if h < 60 * d {
            Color { r: mxb, g: xbb, b: mnb }
        } else if h < 120 * d {
            Color { r: xbb, g: mxb, b: mnb }
        } else if h < 180 * d {
            Color { r: mnb, g: mxb, b: xbb }
        } else if h < 240 * d {
            Color { r: mnb, g: xbb, b: mxb }
        } else if h < 300 * d {
            Color { r: xbb, g: mnb, b: mxb }
        } else {
            Color { r: mxb, g: mnb, b: xbb }
        }
    }
}

} // verus!
