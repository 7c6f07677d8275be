//! The frame interpreter: one tick's draw commands, read line by line until
//! `end_frame`.
//!
//! Each recognized command updates the persistent render registers and/or
//! asks the host for exactly one drawing operation; a malformed command is a
//! logged warning and never takes down the frame.  The interpreter consults
//! the texture cache for `image` and `get_texture_size`; a path the cache
//! does not know yet is handed to the host to load once, after which the
//! same line is simply submitted again.  `get_texture_size` is the one
//! bidirectional point of the protocol: its reply line goes back on the
//! child's input stream before anything else is written there.

use vstd::prelude::*;

use crate::cache::LoadDecision;
use crate::cache::Texture;
use crate::cache::TextureCache;
use crate::cache::load_decision;
use crate::color::all_color_tokens_parse;
use crate::color::channel_value;
use crate::color::css_color_of;
use crate::color::numeric_color;
use crate::color::parse_css_color;
use crate::fixed::Fixed;
use crate::fixed::RAW_MAX;
use crate::fixed::dec_digits;
use crate::fixed::parse_fixed;
use crate::fixed::push_dec;
use crate::fixed::token_fixed;
use crate::lines::Parsed;
use crate::lines::ParsedSpec;
use crate::lines::is_word;
use crate::lines::parse_line;
use crate::lines::parse_line_spec;
use crate::lines::push_chars;
use crate::lines::skip_token;
use crate::lines::skip_token_copy;
use crate::lines::str_chars;
use crate::render::Align;
use crate::render::Anchor;
use crate::render::Rect;
use crate::render::RenderState;
use crate::render::Rgba;
use crate::render::resolve_rect;
use crate::render::resolve_spec;
use crate::render::shift;

verus! {

/// A coordinate or size token: its value, or 0 when it does not parse.
pub open spec fn spec_coord(tok: Seq<char>) -> Fixed {
    match token_fixed(tok) {
        Some(f) => f,
        None => Fixed { raw: 0 },
    }
}

/// A token's value, or `d` when it does not parse.
pub open spec fn spec_fixed_or(tok: Seq<char>, d: int) -> Fixed {
    match token_fixed(tok) {
        Some(f) => f,
        None => Fixed { raw: d as i64 },
    }
}

fn fixed_or(tok: &[char], d: i64) -> (r: Fixed)
    requires
        -RAW_MAX <= d <= RAW_MAX,
    ensures
        r == spec_fixed_or(tok@, d as int),
        -RAW_MAX <= r.raw <= RAW_MAX,
{
    match parse_fixed(tok) {
        Some(f) => f,
        None => Fixed { raw: d },
    }
}

/// One drawing operation for the host's rasterizer, in the current draw
/// colour where one applies.
pub enum DrawCmd {
    /// A filled rectangle.
    Rect { rect: Rect, color: Rgba },
    /// A filled circle with this centre and radius.
    Circle { cx: Fixed, cy: Fixed, radius: Fixed, color: Rgba },
    /// Text at an anchored position, in the current font size.
    Text { x: Fixed, y: Fixed, anchor: Anchor, size: Fixed, color: Rgba, text: Vec<char> },
    /// A filled closed polygon through these points, in order.
    Polygon { points: Vec<(Fixed, Fixed)>, color: Rgba },
    /// A cached image over `rect`, sampling texture coordinates from
    /// `uv_min` to `uv_max`.
    Image { id: u64, rect: Rect, uv_min: (Fixed, Fixed), uv_max: (Fixed, Fixed) },
}

pub enum DrawSpec {
    Rect { rect: Rect, color: Rgba },
    Circle { cx: Fixed, cy: Fixed, radius: Fixed, color: Rgba },
    Text { x: Fixed, y: Fixed, anchor: Anchor, size: Fixed, color: Rgba, text: Seq<char> },
    Polygon { points: Seq<(Fixed, Fixed)>, color: Rgba },
    Image { id: u64, rect: Rect, uv_min: (Fixed, Fixed), uv_max: (Fixed, Fixed) },
}

impl View for DrawCmd {
    type V = DrawSpec;

    open spec fn view(&self) -> DrawSpec {
        match self {
            DrawCmd::Rect { rect, color } => DrawSpec::Rect { rect: *rect, color: *color },
            DrawCmd::Circle { cx, cy, radius, color } => DrawSpec::Circle {
                cx: *cx,
                cy: *cy,
                radius: *radius,
                color: *color,
            },
            DrawCmd::Text { x, y, anchor, size, color, text } => DrawSpec::Text {
                x: *x,
                y: *y,
                anchor: *anchor,
                size: *size,
                color: *color,
                text: text@,
            },
            DrawCmd::Polygon { points, color } => DrawSpec::Polygon {
                points: points@,
                color: *color,
            },
            DrawCmd::Image { id, rect, uv_min, uv_max } => DrawSpec::Image {
                id: *id,
                rect: *rect,
                uv_min: *uv_min,
                uv_max: *uv_max,
            },
        }
    }
}

/// What the interpreter says about one line.
pub enum FrameStep {
    /// The line updated a register or did nothing; keep reading.
    Continue,
    /// Echo this text to the host's log; keep reading.
    Passthrough(Vec<char>),
    /// Log this warning; keep reading.
    Warn(Vec<char>),
    /// Perform this one drawing operation; keep reading.
    Draw(DrawCmd),
    /// Write this line back on the child's input stream now, before any
    /// later input-phase line; keep reading.
    Reply(Vec<char>),
    /// The path is not cached yet: attempt its one load, record the
    /// outcome, and submit the same line again.
    NeedTexture(Vec<char>),
    /// `end_frame` arrived: the frame is over.
    EndFrame,
}

pub enum FrameStepSpec {
    Continue,
    Passthrough(Seq<char>),
    Warn(Seq<char>),
    Draw(DrawSpec),
    Reply(Seq<char>),
    NeedTexture(Seq<char>),
    EndFrame,
}

impl View for FrameStep {
    type V = FrameStepSpec;

    open spec fn view(&self) -> FrameStepSpec {
        match self {
            FrameStep::Continue => FrameStepSpec::Continue,
            FrameStep::Passthrough(t) => FrameStepSpec::Passthrough(t@),
            FrameStep::Warn(t) => FrameStepSpec::Warn(t@),
            FrameStep::Draw(d) => FrameStepSpec::Draw(d@),
            FrameStep::Reply(t) => FrameStepSpec::Reply(t@),
            FrameStep::NeedTexture(t) => FrameStepSpec::NeedTexture(t@),
            FrameStep::EndFrame => FrameStepSpec::EndFrame,
        }
    }
}

/// The interpreter: the persistent registers plus the texture cache.
pub struct FrameInterpreter {
    pub render: RenderState,
    pub cache: TextureCache,
}

pub struct InterpModel {
    pub render: RenderState,
    pub cache: Map<Seq<char>, Option<Texture>>,
}

impl View for FrameInterpreter {
    type V = InterpModel;

    open spec fn view(&self) -> InterpModel {
        InterpModel { render: self.render, cache: self.cache@ }
    }
}

pub open spec fn invalid_frame_msg(name: Seq<char>, raw: Seq<char>) -> Seq<char> {
    "Invalid frame command: "@ + name + seq![' '] + raw
}

pub open spec fn invalid_color_msg(raw: Seq<char>) -> Seq<char> {
    "Invalid color: "@ + raw
}

pub open spec fn invalid_anchor_msg(raw: Seq<char>) -> Seq<char> {
    "Invalid anchor: "@ + raw
}

/// One anchor axis token, horizontally: an unknown word keeps the previous
/// alignment and is reported.
pub open spec fn h_align_of(tok: Seq<char>, prev: Align) -> (Align, bool) {
    if tok == "left"@ {
        (Align::Start, true)
    } else if tok == "center"@ {
        (Align::Center, true)
    } else if tok == "right"@ {
        (Align::End, true)
    } else {
        (prev, false)
    }
}

/// One anchor axis token, vertically.
pub open spec fn v_align_of(tok: Seq<char>, prev: Align) -> (Align, bool) {
    if tok == "top"@ {
        (Align::Start, true)
    } else if tok == "center"@ {
        (Align::Center, true)
    } else if tok == "bottom"@ {
        (Align::End, true)
    } else {
        (prev, false)
    }
}

/// The polygon vertices a token list names: consecutive pairs, an odd
/// trailing token ignored.
pub open spec fn poly_points(toks: Seq<Seq<char>>) -> Seq<(Fixed, Fixed)> {
    Seq::new((toks.len() / 2) as nat, |i: int| (spec_coord(toks[2 * i]), spec_coord(toks[2 * i + 1])))
}

/// The `image` command's positional argument `i` (0 to 7), with its
/// documented default: an absent or unparsable token leaves the default.
pub open spec fn img_arg(toks: Seq<Seq<char>>, i: int, d: int) -> Fixed {
    if 1 + i < toks.len() {
        spec_fixed_or(toks[1 + i], d)
    } else {
        Fixed { raw: d as i64 }
    }
}

/// The reply line for `get_texture_size`: the pixel width and height.
pub open spec fn size_reply(t: Texture) -> Seq<char> {
    dec_digits(t.width as nat) + seq![' '] + dec_digits(t.height as nat)
}

/// The circle a `circle` command draws: the anchor resolves the circle's
/// bounding square, whose centre is the circle's centre.
pub open spec fn circle_center(x: Fixed, y: Fixed, r: Fixed, anc: Anchor) -> (int, int) {
    (
        shift(x.raw as int, 2 * r.raw as int, anc.h) + r.raw,
        shift(y.raw as int, 2 * r.raw as int, anc.v) + r.raw,
    )
}

/// The interpreter's transition for one line: the new state and the step
/// the host must take.
pub open spec fn frame_step_spec(m: InterpModel, line: Seq<char>) -> (InterpModel, FrameStepSpec) {
    match parse_line_spec(line) {
        ParsedSpec::Empty => (m, FrameStepSpec::Continue),
        ParsedSpec::Passthrough(t) => (m, FrameStepSpec::Passthrough(t)),
        ParsedSpec::Command { name, raw_args, tokens } => frame_command_spec(
            m,
            name,
            raw_args,
            tokens,
        ),
    }
}

/// The transition for a parsed command.
pub open spec fn frame_command_spec(
    m: InterpModel,
    name: Seq<char>,
    raw: Seq<char>,
    toks: Seq<Seq<char>>,
) -> (InterpModel, FrameStepSpec) {
    let r = m.render;
    if name == "clear"@ {
        (
            InterpModel { render: RenderState { clear_color: r.draw_color, ..r }, ..m },
            FrameStepSpec::Continue,
        )
    } else if name == "color"@ {
        if (toks.len() == 3 || toks.len() == 4) && all_color_tokens_parse(toks) {
            (
                InterpModel { render: RenderState { draw_color: numeric_color(toks), ..r }, ..m },
                FrameStepSpec::Continue,
            )
        } else {
            match css_color_of(raw) {
                Some((cr, cg, cb, ca)) => (
                    InterpModel {
                        render: RenderState {
                            draw_color: Rgba { r: cr, g: cg, b: cb, a: ca },
                            ..r
                        },
                        ..m
                    },
                    FrameStepSpec::Continue,
                ),
                None => (m, FrameStepSpec::Warn(invalid_color_msg(raw))),
            }
        }
    } else if name == "rectangle"@ && toks.len() == 4 {
        let (rx, ry) = resolve_spec(
            spec_coord(toks[0]).raw as int,
            spec_coord(toks[1]).raw as int,
            spec_coord(toks[2]).raw as int,
            spec_coord(toks[3]).raw as int,
            r.anchor,
        );
        (
            m,
            FrameStepSpec::Draw(
                DrawSpec::Rect {
                    rect: Rect {
                        x: Fixed { raw: rx as i64 },
                        y: Fixed { raw: ry as i64 },
                        w: spec_coord(toks[2]),
                        h: spec_coord(toks[3]),
                    },
                    color: r.draw_color,
                },
            ),
        )
    } else if name == "circle"@ && toks.len() == 3 {
        let (cx, cy) = circle_center(
            spec_coord(toks[0]),
            spec_coord(toks[1]),
            spec_coord(toks[2]),
            r.anchor,
        );
        (
            m,
            FrameStepSpec::Draw(
                DrawSpec::Circle {
                    cx: Fixed { raw: cx as i64 },
                    cy: Fixed { raw: cy as i64 },
                    radius: spec_coord(toks[2]),
                    color: r.draw_color,
                },
            ),
        )
    } else if name == "font_size"@ && toks.len() == 1 {
        (
            InterpModel {
                render: RenderState { font_size: spec_fixed_or(toks[0], 16000), ..r },
                ..m
            },
            FrameStepSpec::Continue,
        )
    } else if name == "text"@ && toks.len() >= 2 {
        (
            m,
            FrameStepSpec::Draw(
                DrawSpec::Text {
                    x: spec_coord(toks[0]),
                    y: spec_coord(toks[1]),
                    anchor: r.anchor,
                    size: r.font_size,
                    color: r.draw_color,
                    text: skip_token(skip_token(raw)),
                },
            ),
        )
    } else if name == "anchor"@ && toks.len() == 2 {
        let (h, hok) = h_align_of(toks[0], r.anchor.h);
        let (v, vok) = v_align_of(toks[1], r.anchor.v);
        (
            InterpModel { render: RenderState { anchor: Anchor { h, v }, ..r }, ..m },
            if hok && vok {
                FrameStepSpec::Continue
            } else {
                FrameStepSpec::Warn(invalid_anchor_msg(raw))
            },
        )
    } else if name == "anchor"@ && toks.len() == 1 && toks[0] == "center"@ {
        (
            InterpModel {
                render: RenderState { anchor: Anchor { h: Align::Center, v: Align::Center }, ..r },
                ..m
            },
            FrameStepSpec::Continue,
        )
    } else if name == "anchor"@ {
        (m, FrameStepSpec::Warn(invalid_anchor_msg(raw)))
    } else if name == "polygon"@ {
        (
            m,
            FrameStepSpec::Draw(DrawSpec::Polygon { points: poly_points(toks), color: r.draw_color }),
        )
    } else if name == "show_cursor"@ && toks.len() == 1 {
        (
            InterpModel {
                render: RenderState { cursor_visible: toks[0] != "false"@, ..r },
                ..m
            },
            FrameStepSpec::Continue,
        )
    } else if name == "image"@ && toks.len() >= 1 {
        match load_decision(m.cache, toks[0]) {
            LoadDecision::Load => (m, FrameStepSpec::NeedTexture(toks[0])),
            LoadDecision::Cached(None) => (m, FrameStepSpec::Continue),
            LoadDecision::Cached(Some(tex)) => {
                let x = img_arg(toks, 0, 0);
                let y = img_arg(toks, 1, 0);
                let w = img_arg(toks, 2, tex.width as i64 * 1000);
                let h = img_arg(toks, 3, tex.height as i64 * 1000);
                let ux = img_arg(toks, 4, 0);
                let uy = img_arg(toks, 5, 0);
                let uw = img_arg(toks, 6, 1000);
                let uh = img_arg(toks, 7, 1000);
                let (rx, ry) = resolve_spec(
                    x.raw as int,
                    y.raw as int,
                    w.raw as int,
                    h.raw as int,
                    r.anchor,
                );
                (
                    m,
                    FrameStepSpec::Draw(
                        DrawSpec::Image {
                            id: tex.id,
                            rect: Rect {
                                x: Fixed { raw: rx as i64 },
                                y: Fixed { raw: ry as i64 },
                                w,
                                h,
                            },
                            uv_min: (ux, uy),
                            uv_max: (
                                Fixed { raw: (ux.raw + uw.raw) as i64 },
                                Fixed { raw: (uy.raw + uh.raw) as i64 },
                            ),
                        },
                    ),
                )
            },
        }
    } else if name == "get_texture_size"@ && toks.len() == 1 {
        match load_decision(m.cache, toks[0]) {
            LoadDecision::Load => (m, FrameStepSpec::NeedTexture(toks[0])),
            LoadDecision::Cached(None) => (m, FrameStepSpec::Continue),
            LoadDecision::Cached(Some(tex)) => (m, FrameStepSpec::Reply(size_reply(tex))),
        }
    } else if name == "end_frame"@ {
        (m, FrameStepSpec::EndFrame)
    } else {
        (m, FrameStepSpec::Warn(invalid_frame_msg(name, raw)))
    }
}

/// A fresh copy of a token.
fn vec_copy(v: &Vec<char>) -> (r: Vec<char>)
    ensures
        r@ == v@,
{
    let mut out: Vec<char> = Vec::new();
    push_chars(&mut out, v.as_slice());
    out
}

impl FrameInterpreter {
    /// The interpreter's invariant: the cache never repeats a key.
    pub open spec fn wf(&self) -> bool {
        self.cache.wf()
    }

    /// A fresh interpreter: default registers, empty cache.
    pub fn new() -> (r: FrameInterpreter)
        ensures
            r@.render == RenderState::spec_init(),
            r@.cache == Map::<Seq<char>, Option<Texture>>::empty(),
            r.wf(),
    {
        FrameInterpreter { render: RenderState::new(), cache: TextureCache::new() }
    }

    /// Records the host's one load attempt for a path the cache did not
    /// know; the registers stay untouched.
    pub fn record_texture(&mut self, path: Vec<char>, outcome: Option<Texture>)
        requires
            old(self).wf(),
            !old(self)@.cache.contains_key(path@),
        ensures
            final(self).wf(),
            final(self)@.cache == old(self)@.cache.insert(path@, outcome),
            final(self)@.render == old(self)@.render,
    {
        self.cache.record(path, outcome);
    }

    /// Feeds one line of child output to the interpreter and says what the
    /// host must do about it.
    #[verifier::rlimit(100)]
    pub fn handle_frame_line(&mut self, line: &[char]) -> (r: FrameStep)
        requires
            old(self).wf(),
        ensures
            final(self).wf(),
            (final(self)@, r@) == frame_step_spec(old(self)@, line@),
    {
        let parsed = parse_line(line);
        match parsed {
            Parsed::Empty => FrameStep::Continue,
            Parsed::Passthrough(t) => FrameStep::Passthrough(t),
            Parsed::Command { name, raw_args, tokens } => {
                proof {
                    assert(tokens.deep_view().len() == tokens@.len());
                    assert(forall|k: int|
                        0 <= k < tokens@.len() ==> #[trigger] tokens.deep_view()[k]
                            == tokens@[k]@);
                }
                let ghost dv = tokens.deep_view();
                if is_word(name.as_slice(), "clear") {
                    self.render.clear_color = self.render.draw_color;
                    FrameStep::Continue
                } else if is_word(name.as_slice(), "color") {
                    let arity_ok = tokens.len() == 3 || tokens.len() == 4;
                    let p0: Option<Fixed> = if arity_ok {
                        parse_fixed(tokens[0].as_slice())
                    } else {
                        None
                    };
                    let p1: Option<Fixed> = if arity_ok {
                        parse_fixed(tokens[1].as_slice())
                    } else {
                        None
                    };
                    let p2: Option<Fixed> = if arity_ok {
                        parse_fixed(tokens[2].as_slice())
                    } else {
                        None
                    };
                    let p3: Option<Fixed> = if tokens.len() == 4 {
                        parse_fixed(tokens[3].as_slice())
                    } else {
                        Some(Fixed { raw: 1000 })
                    };
                    if let (true, Some(c0), Some(c1), Some(c2), Some(c3)) = (
                        arity_ok,
                        p0,
                        p1,
                        p2,
                        p3,
                    ) {
                        proof {
                            assert forall|i: int| 0 <= i < dv.len() implies token_fixed(
                                #[trigger] dv[i],
                            ) is Some by {
                                assert(dv[i] == tokens@[i]@);
                            }
                        }
                        let c = Rgba {
                            r: channel_value(c0.raw),
                            g: channel_value(c1.raw),
                            b: channel_value(c2.raw),
                            a: if tokens.len() == 4 {
                                channel_value(c3.raw)
                            } else {
                                255
                            },
                        };
                        proof {
                            assert(c == numeric_color(dv));
                        }
                        self.render.draw_color = c;
                        FrameStep::Continue
                    } else {
                        proof {
                            if arity_ok {
                                if p0 is None {
                                    assert(token_fixed(dv[0]) is None);
                                } else if p1 is None {
                                    assert(token_fixed(dv[1]) is None);
                                } else if p2 is None {
                                    assert(token_fixed(dv[2]) is None);
                                } else {
                                    assert(token_fixed(dv[3]) is None);
                                }
                                assert(!all_color_tokens_parse(dv));
                            }
                        }
                        match parse_css_color(raw_args.as_slice()) {
                            Some(c) => {
                                self.render.draw_color = c;
                                FrameStep::Continue
                            },
                            None => {
                                let mut msg = str_chars("Invalid color: ");
                                push_chars(&mut msg, raw_args.as_slice());
                                proof {
                                    assert(msg@ =~= invalid_color_msg(raw_args@));
                                }
                                FrameStep::Warn(msg)
                            },
                        }
                    }
                } else if is_word(name.as_slice(), "rectangle") && tokens.len() == 4 {
                    let x = fixed_or(tokens[0].as_slice(), 0);
                    let y = fixed_or(tokens[1].as_slice(), 0);
                    let w = fixed_or(tokens[2].as_slice(), 0);
                    let h = fixed_or(tokens[3].as_slice(), 0);
                    let rect = resolve_rect(x, y, w, h, self.render.anchor);
                    FrameStep::Draw(DrawCmd::Rect { rect, color: self.render.draw_color })
                } else if is_word(name.as_slice(), "circle") && tokens.len() == 3 {
                    let x = fixed_or(tokens[0].as_slice(), 0);
                    let y = fixed_or(tokens[1].as_slice(), 0);
                    let rad = fixed_or(tokens[2].as_slice(), 0);
                    let size = Fixed { raw: rad.raw * 2 };
                    let rr = resolve_rect(x, y, size, size, self.render.anchor);
                    let cx = Fixed { raw: rr.x.raw + rad.raw };
                    let cy = Fixed { raw: rr.y.raw + rad.raw };
                    FrameStep::Draw(
                        DrawCmd::Circle { cx, cy, radius: rad, color: self.render.draw_color },
                    )
                } else if is_word(name.as_slice(), "font_size") && tokens.len() == 1 {
                    self.render.font_size = fixed_or(tokens[0].as_slice(), 16000);
                    FrameStep::Continue
                } else if is_word(name.as_slice(), "text") && tokens.len() >= 2 {
                    let x = fixed_or(tokens[0].as_slice(), 0);
                    let y = fixed_or(tokens[1].as_slice(), 0);
                    let rest = skip_token_copy(raw_args.as_slice());
                    let text = skip_token_copy(rest.as_slice());
                    FrameStep::Draw(
                        DrawCmd::Text {
                            x,
                            y,
                            anchor: self.render.anchor,
                            size: self.render.font_size,
                            color: self.render.draw_color,
                            text,
                        },
                    )
                } else if is_word(name.as_slice(), "anchor") && tokens.len() == 2 {
                    let t0 = tokens[0].as_slice();
                    let t1 = tokens[1].as_slice();
                    let mut ok: bool = true;
                    let h: Align = if is_word(t0, "left") {
                        Align::Start
                    } else if is_word(t0, "center") {
                        Align::Center
                    } else if is_word(t0, "right") {
                        Align::End
                    } else {
                        ok = false;
                        self.render.anchor.h
                    };
                    let v: Align = if is_word(t1, "top") {
                        Align::Start
                    } else if is_word(t1, "center") {
                        Align::Center
                    } else if is_word(t1, "bottom") {
                        Align::End
                    } else {
                        ok = false;
                        self.render.anchor.v
                    };
                    self.render.anchor = Anchor { h, v };
                    if ok {
                        FrameStep::Continue
                    } else {
                        let mut msg = str_chars("Invalid anchor: ");
                        push_chars(&mut msg, raw_args.as_slice());
                        proof {
                            assert(msg@ =~= invalid_anchor_msg(raw_args@));
                        }
                        FrameStep::Warn(msg)
                    }
                } else if is_word(name.as_slice(), "anchor") && tokens.len() == 1 && is_word(
                    tokens[0].as_slice(),
                    "center",
                ) {
                    self.render.anchor = Anchor { h: Align::Center, v: Align::Center };
                    FrameStep::Continue
                } else if is_word(name.as_slice(), "anchor") {
                    let mut msg = str_chars("Invalid anchor: ");
                    push_chars(&mut msg, raw_args.as_slice());
                    proof {
                        assert(msg@ =~= invalid_anchor_msg(raw_args@));
                    }
                    FrameStep::Warn(msg)
                } else if is_word(name.as_slice(), "polygon") {
                    let ntok = tokens.len();
                    let npairs = ntok / 2;
                    let mut points: Vec<(Fixed, Fixed)> = Vec::new();
                    let mut k: usize = 0;
                    while k < npairs
                        invariant
                            0 <= k <= npairs,
                            ntok == tokens@.len(),
                            npairs == ntok / 2,
                            dv == tokens.deep_view(),
                            dv.len() == tokens@.len(),
                            forall|i: int|
                                0 <= i < tokens@.len() ==> #[trigger] dv[i] == tokens@[i]@,
                            points@.len() == k,
                            forall|i: int|
                                0 <= i < k ==> #[trigger] points@[i] == (
                                    spec_coord(dv[2 * i]),
                                    spec_coord(dv[2 * i + 1]),
                                ),
                        decreases npairs - k,
                    {
                        let px = fixed_or(tokens[2 * k].as_slice(), 0);
                        let py = fixed_or(tokens[2 * k + 1].as_slice(), 0);
                        points.push((px, py));
                        k = k + 1;
                    }
                    proof {
                        assert(points@ =~= poly_points(dv));
                    }
                    FrameStep::Draw(
                        DrawCmd::Polygon { points, color: self.render.draw_color },
                    )
                } else if is_word(name.as_slice(), "show_cursor") && tokens.len() == 1 {
                    self.render.cursor_visible = !is_word(tokens[0].as_slice(), "false");
                    FrameStep::Continue
                } else if is_word(name.as_slice(), "image") && tokens.len() >= 1 {
                    match self.cache.probe(tokens[0].as_slice()) {
                        LoadDecision::Load => FrameStep::NeedTexture(vec_copy(&tokens[0])),
                        LoadDecision::Cached(None) => FrameStep::Continue,
                        LoadDecision::Cached(Some(tex)) => {
                            let x = if tokens.len() > 1 {
                                fixed_or(tokens[1].as_slice(), 0)
                            } else {
                                Fixed { raw: 0 }
                            };
                            let y = if tokens.len() > 2 {
                                fixed_or(tokens[2].as_slice(), 0)
                            } else {
                                Fixed { raw: 0 }
                            };
                            let dw: i64 = (tex.width as i64) * 1000;
                            let dh: i64 = (tex.height as i64) * 1000;
                            let w = if tokens.len() > 3 {
                                fixed_or(tokens[3].as_slice(), dw)
                            } else {
                                Fixed { raw: dw }
                            };
                            let h = if tokens.len() > 4 {
                                fixed_or(tokens[4].as_slice(), dh)
                            } else {
                                Fixed { raw: dh }
                            };
                            let ux = if tokens.len() > 5 {
                                fixed_or(tokens[5].as_slice(), 0)
                            } else {
                                Fixed { raw: 0 }
                            };
                            let uy = if tokens.len() > 6 {
                                fixed_or(tokens[6].as_slice(), 0)
                            } else {
                                Fixed { raw: 0 }
                            };
                            let uw = if tokens.len() > 7 {
                                fixed_or(tokens[7].as_slice(), 1000)
                            } else {
                                Fixed { raw: 1000 }
                            };
                            let uh = if tokens.len() > 8 {
                                fixed_or(tokens[8].as_slice(), 1000)
                            } else {
                                Fixed { raw: 1000 }
                            };
                            let rect = resolve_rect(x, y, w, h, self.render.anchor);
                            FrameStep::Draw(
                                DrawCmd::Image {
                                    id: tex.id,
                                    rect,
                                    uv_min: (ux, uy),
                                    uv_max: (
                                        Fixed { raw: ux.raw + uw.raw },
                                        Fixed { raw: uy.raw + uh.raw },
                                    ),
                                },
                            )
                        },
                    }
                } else if is_word(name.as_slice(), "get_texture_size") && tokens.len() == 1 {
                    match self.cache.probe(tokens[0].as_slice()) {
                        LoadDecision::Load => FrameStep::NeedTexture(vec_copy(&tokens[0])),
                        LoadDecision::Cached(None) => FrameStep::Continue,
                        LoadDecision::Cached(Some(tex)) => {
                            let mut msg: Vec<char> = Vec::new();
                            push_dec(&mut msg, tex.width as u64);
                            msg.push(' ');
                            push_dec(&mut msg, tex.height as u64);
                            proof {
                                assert(msg@ =~= size_reply(tex));
                            }
                            FrameStep::Reply(msg)
                        },
                    }
                } else if is_word(name.as_slice(), "end_frame") {
                    FrameStep::EndFrame
                } else {
                    let mut msg = str_chars("Invalid frame command: ");
                    push_chars(&mut msg, name.as_slice());
                    msg.push(' ');
                    push_chars(&mut msg, raw_args.as_slice());
                    proof {
                        assert(msg@ =~= invalid_frame_msg(name@, raw_args@));
                    }
                    FrameStep::Warn(msg)
                }
            },
        }
    }
}

} // verus!
