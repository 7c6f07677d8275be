//! Colour arguments: numeric channel tokens and CSS colour expressions.
//!
//! A `color` command whose three or four tokens all parse as numbers is
//! numeric: each token is a channel in [0, 1] that is scaled to an 8-bit
//! value, rounding half away from zero and clamping.  Any other argument
//! text is handed to the CSS colour parser; its failure leaves the draw
//! colour unchanged.

use vstd::prelude::*;

use crate::fixed::RAW_MAX;
use crate::fixed::token_fixed;
use crate::render::Rgba;

verus! {

/// The 8-bit channel for a fixed-point value `v` (in thousandths): `v`
/// scaled by 255, rounded half away from zero, clamped to [0, 255].
pub open spec fn channel_of(v: int) -> u8 {
    if v <= 0 {
        0
    } else if (v * 255 + 500) / 1000 > 255 {
        255
    } else {
        ((v * 255 + 500) / 1000) as u8
    }
}

/// Whether every token of a `color` command parses as a number; only then
/// is the command numeric — otherwise the whole argument text is a CSS
/// colour expression.
pub open spec fn all_color_tokens_parse(toks: Seq<Seq<char>>) -> bool {
    forall|i: int| 0 <= i < toks.len() ==> token_fixed(#[trigger] toks[i]) is Some
}

/// The parsed raw value of a token known to parse.
pub open spec fn parsed_raw(tok: Seq<char>) -> int
    recommends
        token_fixed(tok) is Some,
{
    match token_fixed(tok) {
        Some(f) => f.raw as int,
        None => 0,
    }
}

/// The 8-bit channel for a raw fixed-point value.
pub fn channel_value(v: i64) -> (r: u8)
    requires
        -RAW_MAX <= v <= RAW_MAX,
    ensures
        r == channel_of(v as int),
{
    if v <= 0 {
        0
    } else {
        let c: i64 = (v * 255 + 500) / 1000;
        if c > 255 {
            255
        } else {
            c as u8
        }
    }
}

/// The colour named by a numeric `color` command: three channels and the
/// optional alpha, each scaled to 8 bits; alpha defaults to opaque.
pub open spec fn numeric_color(toks: Seq<Seq<char>>) -> Rgba
    recommends
        toks.len() == 3 || toks.len() == 4,
        all_color_tokens_parse(toks),
{
    Rgba {
        r: channel_of(parsed_raw(toks[0])),
        g: channel_of(parsed_raw(toks[1])),
        b: channel_of(parsed_raw(toks[2])),
        a: if toks.len() == 4 {
            channel_of(parsed_raw(toks[3]))
        } else {
            255
        },
    }
}

/// The linear-RGBA 8-bit channels the CSS colour parser gives for an
/// argument text, or `None` when the text is not a CSS colour.  The result
/// depends on the text alone.
pub uninterp spec fn css_color_of(s: Seq<char>) -> Option<(u8, u8, u8, u8)>;

/// Relies on `csscolorparser::parse` and `Color::to_linear_rgba_u8`: parsing
/// a CSS colour expression and scaling the parsed colour's linear channels
/// to 8 bits are functions of the argument text alone.
#[verifier::external_body]
fn parse_css_channels(s: &[char]) -> (r: Option<(u8, u8, u8, u8)>)
    ensures
        r == css_color_of(s@),
{
    let text: String = s.iter().collect();
    match csscolorparser::parse(&text) {
        Ok(c) => Some(c.to_linear_rgba_u8()),
        Err(_) => None,
    }
}

/// The colour a CSS `color` argument names, if it names one.
pub fn parse_css_color(s: &[char]) -> (r: Option<Rgba>)
    ensures
        r == match css_color_of(s@) {
            Some((cr, cg, cb, ca)) => Some(Rgba { r: cr, g: cg, b: cb, a: ca }),
            None => None::<Rgba>,
        },
{
    match parse_css_channels(s) {
        Some((cr, cg, cb, ca)) => Some(Rgba { r: cr, g: cg, b: cb, a: ca }),
        None => None,
    }
}

} // verus!
