//! The interpreter's persistent registers and the anchor resolver.
//!
//! The registers (draw colour, clear colour, font size, anchor, cursor
//! visibility) outlive a single frame: only explicit commands change them,
//! and they are reset only at process start.  The anchor resolver is the
//! pure function that places a shape's bounding rectangle relative to the
//! position a draw command names.

use vstd::prelude::*;

use crate::fixed::Fixed;
use crate::fixed::RAW_MAX;
use crate::fixed::half;
use crate::fixed::spec_half;

verus! {

/// A colour with 8-bit channels, as the drawing surface takes it.
#[derive(Clone, Copy, PartialEq, Eq, Structural, Debug)]
pub struct Rgba {
    pub r: u8,
    pub g: u8,
    pub b: u8,
    pub a: u8,
}

impl Rgba {
    pub open spec fn spec_white() -> Rgba {
        Rgba { r: 255, g: 255, b: 255, a: 255 }
    }

    pub open spec fn spec_black() -> Rgba {
        Rgba { r: 0, g: 0, b: 0, a: 255 }
    }

    pub fn white() -> (c: Rgba)
        ensures
            c == Rgba::spec_white(),
    {
        Rgba { r: 255, g: 255, b: 255, a: 255 }
    }

    pub fn black() -> (c: Rgba)
        ensures
            c == Rgba::spec_black(),
    {
        Rgba { r: 0, g: 0, b: 0, a: 255 }
    }
}

/// One axis of an anchor: which part of the shape the given position names.
#[derive(Clone, Copy, PartialEq, Eq, Structural, Debug)]
pub enum Align {
    /// The position is the shape's near edge (left or top).
    Start,
    /// The position is the shape's centre.
    Center,
    /// The position is the shape's far edge (right or bottom).
    End,
}

/// A horizontal and a vertical alignment.
#[derive(Clone, Copy, PartialEq, Eq, Structural, Debug)]
pub struct Anchor {
    pub h: Align,
    pub v: Align,
}

/// An axis-aligned rectangle: origin and size, in fixed-point units.
#[derive(Clone, Copy, PartialEq, Eq, Structural, Debug)]
pub struct Rect {
    pub x: Fixed,
    pub y: Fixed,
    pub w: Fixed,
    pub h: Fixed,
}

/// The largest coordinate magnitude the resolver accepts; parsed tokens and
/// texture sizes stay well inside it, and sums of two such values cannot
/// overflow a raw `i64`.
pub const RESOLVE_MAX: i64 = 4_000_000_000_000_000;

/// Where the near edge of a span of `size` lands when `pos` names the point
/// given by `a`.
pub open spec fn shift(pos: int, size: int, a: Align) -> int {
    match a {
        Align::Start => pos,
        Align::Center => pos - spec_half(size),
        Align::End => pos - size,
    }
}

/// The resolver's result on rectangle `(x, y, w, h)` under `anc`: the origin
/// moves, the size stays.
pub open spec fn resolve_spec(x: int, y: int, w: int, h: int, anc: Anchor) -> (int, int) {
    (shift(x, w, anc.h), shift(y, h, anc.v))
}

fn shift_exec(pos: i64, size: i64, a: Align) -> (r: i64)
    requires
        -RESOLVE_MAX <= pos <= RESOLVE_MAX,
        -RESOLVE_MAX <= size <= RESOLVE_MAX,
    ensures
        r == shift(pos as int, size as int, a),
{
    match a {
        Align::Start => pos,
        Align::Center => pos - half(size),
        Align::End => pos - size,
    }
}

/// Places the rectangle `(x, y, w, h)` according to `anc`: horizontal
/// `Start` keeps `x`; `Center` moves the rectangle so its centre sits at
/// `x`; `End` moves it so its far edge sits at `x`; vertically alike on `y`.
pub fn resolve_rect(x: Fixed, y: Fixed, w: Fixed, h: Fixed, anc: Anchor) -> (r: Rect)
    requires
        -RESOLVE_MAX <= x.raw <= RESOLVE_MAX,
        -RESOLVE_MAX <= y.raw <= RESOLVE_MAX,
        -RESOLVE_MAX <= w.raw <= RESOLVE_MAX,
        -RESOLVE_MAX <= h.raw <= RESOLVE_MAX,
    ensures
        (r.x.raw as int, r.y.raw as int) == resolve_spec(
            x.raw as int,
            y.raw as int,
            w.raw as int,
            h.raw as int,
            anc,
        ),
        r.w == w,
        r.h == h,
{
    Rect {
        x: Fixed { raw: shift_exec(x.raw, w.raw, anc.h) },
        y: Fixed { raw: shift_exec(y.raw, h.raw, anc.v) },
        w,
        h,
    }
}

/// Law: with anchor `(start, start)` the resolver returns the input
/// rectangle unchanged.
pub proof fn lemma_anchor_start_identity(x: int, y: int, w: int, h: int)
    ensures
        resolve_spec(x, y, w, h, Anchor { h: Align::Start, v: Align::Start }) == (x, y),
{
}

/// Law: with anchor `(center, center)` the resolved rectangle's centre —
/// its origin plus half its size, in the resolver's truncating halving —
/// is the input origin.
pub proof fn lemma_anchor_center_round_trip(x: int, y: int, w: int, h: int)
    ensures
        ({
            let (rx, ry) = resolve_spec(x, y, w, h, Anchor { h: Align::Center, v: Align::Center });
            rx + spec_half(w) == x && ry + spec_half(h) == y
        }),
{
}

/// Law: with anchor `(end, end)` the resolved rectangle's far corner — its
/// origin plus its size — is the input origin.
pub proof fn lemma_anchor_end_round_trip(x: int, y: int, w: int, h: int)
    ensures
        ({
            let (rx, ry) = resolve_spec(x, y, w, h, Anchor { h: Align::End, v: Align::End });
            rx + w == x && ry + h == y
        }),
{
}

/// The interpreter's persistent registers.
#[derive(Clone, Copy, PartialEq, Eq, Structural, Debug)]
pub struct RenderState {
    /// The colour the next shape or text is drawn in.
    pub draw_color: Rgba,
    /// The colour the host clears the surface with before the next frame.
    pub clear_color: Rgba,
    /// The text height for the `text` command.
    pub font_size: Fixed,
    /// How draw positions are interpreted.
    pub anchor: Anchor,
    /// Whether the host shows the pointer cursor over the surface.
    pub cursor_visible: bool,
}

impl RenderState {
    /// The registers at process start: opaque white draw colour, opaque
    /// black clear colour, font size 16, anchor `(start, start)`, cursor
    /// shown.
    pub open spec fn spec_init() -> RenderState {
        RenderState {
            draw_color: Rgba::spec_white(),
            clear_color: Rgba::spec_black(),
            font_size: Fixed { raw: 16000 },
            anchor: Anchor { h: Align::Start, v: Align::Start },
            cursor_visible: true,
        }
    }

    pub fn new() -> (s: RenderState)
        ensures
            s == RenderState::spec_init(),
    {
        RenderState {
            draw_color: Rgba::white(),
            clear_color: Rgba::black(),
            font_size: Fixed { raw: 16000 },
            anchor: Anchor { h: Align::Start, v: Align::Start },
            cursor_visible: true,
        }
    }
}

} // verus!
