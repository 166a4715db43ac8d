//! 8-bit premultiplied colours and the two transformations a painter applies.

use vstd::prelude::*;
use crate::num::{clamp, clamp_int, ONE};

verus! {

/// A colour with premultiplied alpha, one byte per channel.
#[derive(Clone, Copy, Debug, PartialEq, Eq, Hash, Structural)]
pub struct Color32 {
    pub r: u8,
    pub g: u8,
    pub b: u8,
    pub a: u8,
}

/// What `ecolor::tint_color_towards` computes: every channel is halved, and a
/// share of `target` is added that grows with the alpha of `color`.
pub open spec fn tint_spec(color: Color32, target: Color32) -> Color32 {
    if color.a == 0 {
        Color32 { r: color.r / 2, g: color.g / 2, b: color.b / 2, a: 0 }
    } else if color.a < 170 {
        let div: int = (510int / (color.a as int)) % 256;
        Color32 {
            r: (color.r / 2 + (target.r as int) / div) as u8,
            g: (color.g / 2 + (target.g as int) / div) as u8,
            b: (color.b / 2 + (target.b as int) / div) as u8,
            a: color.a / 2,
        }
    } else {
        Color32 {
            r: (color.r / 2 + target.r / 2) as u8,
            g: (color.g / 2 + target.g / 2) as u8,
            b: (color.b / 2 + target.b / 2) as u8,
            a: color.a,
        }
    }
}

/// One channel multiplied by a fixed-point opacity, which is brought into
/// `[0, ONE]` first; the product is rounded to the nearest whole, halves up.
pub open spec fn channel_with_opacity(channel: u8, opacity: i32) -> u8 {
    ((channel as int * clamp_int(opacity as int, 0, ONE as int) + (ONE as int) / 2) / (ONE as int)) as u8
}

/// Every channel, alpha included, multiplied by a fixed-point opacity. This
/// is what `Color32::gamma_multiply` of `ecolor` gives for the factor
/// `opacity / ONE`: a channel times an opacity stays below 2^24, so floating
/// point computes the product, and the half added to it, without error.
pub open spec fn gamma_multiply_spec(color: Color32, opacity: i32) -> Color32 {
    Color32 {
        r: channel_with_opacity(color.r, opacity),
        g: channel_with_opacity(color.g, opacity),
        b: channel_with_opacity(color.b, opacity),
        a: channel_with_opacity(color.a, opacity),
    }
}

/// Moves `color` halfway towards `target`.
///
/// Calls `ecolor::tint_color_towards`, reached as `epaint::ecolor`. The
/// contract restates that function's three branches on the alpha of `color`;
/// it is taken from its source, not proved.
#[verifier::external_body]
fn tint_color_towards(color: Color32, target: Color32) -> (out: Color32)
    ensures
        out == tint_spec(color, target),
{
    let c = epaint::Color32::from_rgba_premultiplied(color.r, color.g, color.b, color.a);
    let t = epaint::Color32::from_rgba_premultiplied(target.r, target.g, target.b, target.a);
    let [r, g, b, a] = epaint::ecolor::tint_color_towards(c, t).to_array();
    Color32 { r, g, b, a }
}

/// One channel multiplied by a fixed-point opacity.
fn dim_channel(channel: u8, opacity: i32) -> (out: u8)
    ensures
        out == channel_with_opacity(channel, opacity),
        opacity >= ONE ==> out == channel,
        opacity <= 0 ==> out == 0,
        out <= channel,
{
    let by: u32 = clamp(opacity, 0, ONE) as u32;
    proof {
        assert(0 <= channel as int * by as int <= 255 * 65536 && (by == 65536 ==> channel as int * by as int
            == channel as int * 65536) && (by == 0 ==> channel as int * by as int == 0) && channel as int * by as int <= channel as int * 65536)
            by (nonlinear_arith)
            requires
                0 <= channel as int <= 255,
                0 <= by as int <= 65536,
        ;
    }
    let scaled: u32 = channel as u32 * by + (ONE as u32) / 2;
    (scaled / (ONE as u32)) as u8
}

/// Every channel, alpha included, multiplied by a fixed-point opacity.
fn gamma_multiply(color: Color32, opacity: i32) -> (out: Color32)
    ensures
        out == gamma_multiply_spec(color, opacity),
        opacity >= ONE ==> out == color,
        opacity <= 0 ==> out == Color32::spec_transparent(),
{
    Color32 {
        r: dim_channel(color.r, opacity),
        g: dim_channel(color.g, opacity),
        b: dim_channel(color.b, opacity),
        a: dim_channel(color.a, opacity),
    }
}

impl Color32 {
    /// The colour with the given premultiplied channels.
    pub open spec fn spec_from_rgba_premultiplied(r: u8, g: u8, b: u8, a: u8) -> Color32 {
        Color32 { r, g, b, a }
    }

    /// The colour with the given premultiplied channels.
    #[verifier::when_used_as_spec(spec_from_rgba_premultiplied)]
    pub fn from_rgba_premultiplied(r: u8, g: u8, b: u8, a: u8) -> (c: Color32)
        ensures
            c == Color32::spec_from_rgba_premultiplied(r, g, b, a),
    {
        Color32 { r, g, b, a }
    }

    /// Fully transparent: painting with it shows nothing.
    pub open spec fn spec_transparent() -> Color32 {
        Color32 { r: 0, g: 0, b: 0, a: 0 }
    }

    /// Fully transparent: painting with it shows nothing.
    #[verifier::when_used_as_spec(spec_transparent)]
    pub fn transparent() -> (c: Color32)
        ensures
            c == Color32::spec_transparent(),
    {
        Color32 { r: 0, g: 0, b: 0, a: 0 }
    }

    /// The sentinel that means "no colour given: use the caller's". No
    /// transformation ever changes it.
    pub open spec fn spec_placeholder() -> Color32 {
        Color32 { r: 64, g: 254, b: 0, a: 128 }
    }

    /// The sentinel that means "no colour given: use the caller's". No
    /// transformation ever changes it.
    #[verifier::when_used_as_spec(spec_placeholder)]
    pub fn placeholder() -> (c: Color32)
        ensures
            c == Color32::spec_placeholder(),
    {
        Color32 { r: 64, g: 254, b: 0, a: 128 }
    }

    /// Black with the given opacity.
    pub open spec fn spec_from_black_alpha(a: u8) -> Color32 {
        Color32 { r: 0, g: 0, b: 0, a }
    }

    /// Black with the given opacity.
    #[verifier::when_used_as_spec(spec_from_black_alpha)]
    pub fn from_black_alpha(a: u8) -> (c: Color32)
        ensures
            c == Color32::spec_from_black_alpha(a),
    {
        Color32 { r: 0, g: 0, b: 0, a }
    }

    /// White with the given opacity.
    pub open spec fn spec_from_white_alpha(a: u8) -> Color32 {
        Color32 { r: a, g: a, b: a, a }
    }

    /// White with the given opacity.
    #[verifier::when_used_as_spec(spec_from_white_alpha)]
    pub fn from_white_alpha(a: u8) -> (c: Color32)
        ensures
            c == Color32::spec_from_white_alpha(a),
    {
        Color32 { r: a, g: a, b: a, a }
    }

    /// Whether the alpha is zero, so that the colour adds light.
    pub open spec fn spec_is_additive(self) -> bool {
        self.a == 0
    }

    /// Whether the alpha is zero, so that the colour adds light.
    #[verifier::when_used_as_spec(spec_is_additive)]
    pub fn is_additive(self) -> (r: bool)
        ensures
            r == self.spec_is_additive(),
    {
        self.a == 0
    }

    /// The same channels with alpha zero.
    pub open spec fn spec_additive(self) -> Color32 {
        Color32 { r: self.r, g: self.g, b: self.b, a: 0 }
    }

    /// The same channels with alpha zero.
    #[verifier::when_used_as_spec(spec_additive)]
    pub fn additive(self) -> (c: Color32)
        ensures
            c == self.spec_additive(),
    {
        Color32 { r: self.r, g: self.g, b: self.b, a: 0 }
    }

    /// The colour faded halfway towards `target`; the placeholder is kept.
    pub open spec fn spec_tint_towards(self, target: Color32) -> Color32 {
        if self == Color32::spec_placeholder() {
            self
        } else {
            tint_spec(self, target)
        }
    }

    /// The colour faded halfway towards `target`; the placeholder is kept.
    #[verifier::when_used_as_spec(spec_tint_towards)]
    pub fn tint_towards(self, target: Color32) -> (c: Color32)
        ensures
            c == self.spec_tint_towards(target),
    {
        if self == Color32::placeholder() {
            self
        } else {
            tint_color_towards(self, target)
        }
    }

    /// The colour made more transparent by a fixed-point opacity, which is
    /// brought into `[0, ONE]` first: every channel, alpha included, is
    /// multiplied by it and rounded to the nearest whole. The placeholder is
    /// kept.
    pub open spec fn spec_with_opacity(self, opacity: i32) -> Color32 {
        if self == Color32::spec_placeholder() {
            self
        } else {
            gamma_multiply_spec(self, opacity)
        }
    }

    /// The colour made more transparent by a fixed-point opacity, which is
    /// brought into `[0, ONE]` first: every channel, alpha included, is
    /// multiplied by it and rounded to the nearest whole. The placeholder is
    /// kept.
    #[verifier::when_used_as_spec(spec_with_opacity)]
    pub fn with_opacity(self, opacity: i32) -> (c: Color32)
        ensures
            c == self.spec_with_opacity(opacity),
    {
        if self == Color32::placeholder() {
            self
        } else {
            gamma_multiply(self, opacity)
        }
    }
}

} // verus!
