//! The line parser, the fixed-point grammar and the wire formatting.

use print_game::fixed::{parse_fixed, push_fixed, Fixed};
use print_game::frame::{DrawCmd, FrameStep};
use print_game::lines::{parse_line, Parsed};
use print_game::render::{resolve_rect, Align, Anchor};
use print_game::server::Server;

fn chars(s: &str) -> Vec<char> {
    s.chars().collect()
}

fn text(v: &[char]) -> String {
    v.iter().collect()
}

fn raw(s: &str) -> Option<i64> {
    parse_fixed(&chars(s)).map(|f| f.raw)
}

#[test]
fn fixed_point_grammar() {
    assert_eq!(raw("0"), Some(0));
    assert_eq!(raw("800"), Some(800_000));
    assert_eq!(raw("1.5"), Some(1_500));
    assert_eq!(raw("-0.25"), Some(-250));
    assert_eq!(raw("+2"), Some(2_000));
    assert_eq!(raw(".5"), Some(500));
    assert_eq!(raw("3."), Some(3_000));
    assert_eq!(raw("0.1234"), Some(123), "fraction digits beyond the third are ignored");
    assert_eq!(raw(""), None);
    assert_eq!(raw("."), None);
    assert_eq!(raw("-"), None);
    assert_eq!(raw("1.2.3"), None);
    assert_eq!(raw("12a"), None);
    assert_eq!(raw("notanumber"), None);
    // beyond the engine's range counts as unparsable
    assert_eq!(raw("99999999999999999999"), None);
}

#[test]
fn fixed_point_formatting() {
    let cases: &[(i64, &str)] = &[
        (0, "0"),
        (16_000, "16"),
        (500, "0.5"),
        (-2_250, "-2.25"),
        (123, "0.123"),
        (800_000, "800"),
        (1_020, "1.02"),
    ];
    for (rawv, expect) in cases {
        let mut out: Vec<char> = Vec::new();
        push_fixed(&mut out, Fixed { raw: *rawv });
        assert_eq!(text(&out), *expect);
    }
}

#[test]
fn line_parser_splits_on_whitespace_runs() {
    match parse_line(&chars("  color \t 1  0 0  ")) {
        Parsed::Command { name, raw_args, tokens } => {
            assert_eq!(text(&name), "color");
            assert_eq!(text(&raw_args), "1  0 0");
            let toks: Vec<String> = tokens.iter().map(|t| text(t)).collect();
            assert_eq!(toks, ["1", "0", "0"]);
        }
        _ => panic!("expected a command"),
    }
}

#[test]
fn line_parser_passthrough_and_empty() {
    match parse_line(&chars("/hello from the child")) {
        Parsed::Passthrough(t) => assert_eq!(text(&t), "hello from the child"),
        _ => panic!("expected passthrough"),
    }
    assert!(matches!(parse_line(&chars("")), Parsed::Empty));
    assert!(matches!(parse_line(&chars("   ")), Parsed::Empty));
    assert!(matches!(parse_line(&chars("/")), Parsed::Empty));
}

#[test]
fn line_parser_command_without_arguments() {
    match parse_line(&chars("end_frame")) {
        Parsed::Command { name, raw_args, tokens } => {
            assert_eq!(text(&name), "end_frame");
            assert_eq!(text(&raw_args), "");
            assert!(tokens.is_empty());
        }
        _ => panic!("expected a command"),
    }
}

#[test]
fn anchor_resolution_round_trips() {
    let x = Fixed { raw: 100_000 };
    let y = Fixed { raw: 50_000 };
    let w = Fixed { raw: 20_000 };
    let h = Fixed { raw: 10_000 };
    // (start, start): unchanged
    let r = resolve_rect(x, y, w, h, Anchor { h: Align::Start, v: Align::Start });
    assert_eq!((r.x.raw, r.y.raw, r.w.raw, r.h.raw), (100_000, 50_000, 20_000, 10_000));
    // (center, center): the resolved rectangle's centre is the input origin
    let r = resolve_rect(x, y, w, h, Anchor { h: Align::Center, v: Align::Center });
    assert_eq!(r.x.raw + r.w.raw / 2, x.raw);
    assert_eq!(r.y.raw + r.h.raw / 2, y.raw);
    // (end, end): the resolved rectangle's far corner is the input origin
    let r = resolve_rect(x, y, w, h, Anchor { h: Align::End, v: Align::End });
    assert_eq!(r.x.raw + r.w.raw, x.raw);
    assert_eq!(r.y.raw + r.h.raw, y.raw);
}

fn running_server() -> Server {
    let mut s = Server::new();
    s.handle_init_line(&chars("end_init"));
    s
}

#[test]
fn anchor_command_sets_axes_with_fallback() {
    let mut s = running_server();
    assert!(matches!(s.handle_frame_line(&chars("anchor center")), FrameStep::Continue));
    assert_eq!(s.interp.render.anchor, Anchor { h: Align::Center, v: Align::Center });
    assert!(matches!(
        s.handle_frame_line(&chars("anchor right bottom")),
        FrameStep::Continue
    ));
    assert_eq!(s.interp.render.anchor, Anchor { h: Align::End, v: Align::End });
    // an unrecognized component keeps that axis and warns
    match s.handle_frame_line(&chars("anchor sideways top")) {
        FrameStep::Warn(msg) => assert_eq!(text(&msg), "Invalid anchor: sideways top"),
        _ => panic!("expected a warning"),
    }
    assert_eq!(s.interp.render.anchor, Anchor { h: Align::End, v: Align::Start });
}

#[test]
fn circle_uses_its_bounding_square() {
    let mut s = running_server();
    match s.handle_frame_line(&chars("circle 10 20 5")) {
        FrameStep::Draw(DrawCmd::Circle { cx, cy, radius, .. }) => {
            // anchor (start, start): the centre sits radius away from the corner
            assert_eq!((cx.raw, cy.raw, radius.raw), (15_000, 25_000, 5_000));
        }
        _ => panic!("expected a circle"),
    }
    s.handle_frame_line(&chars("anchor center"));
    match s.handle_frame_line(&chars("circle 10 20 5")) {
        FrameStep::Draw(DrawCmd::Circle { cx, cy, .. }) => {
            assert_eq!((cx.raw, cy.raw), (10_000, 20_000));
        }
        _ => panic!("expected a circle"),
    }
}

#[test]
fn text_command_keeps_the_free_text_unsplit() {
    let mut s = running_server();
    s.handle_frame_line(&chars("font_size 20"));
    match s.handle_frame_line(&chars("text 5 6 hello  world")) {
        FrameStep::Draw(DrawCmd::Text { x, y, size, text: t, .. }) => {
            assert_eq!((x.raw, y.raw), (5_000, 6_000));
            assert_eq!(size.raw, 20_000);
            assert_eq!(text(&t), "hello  world");
        }
        _ => panic!("expected text"),
    }
}

#[test]
fn font_size_falls_back_to_sixteen() {
    let mut s = running_server();
    s.handle_frame_line(&chars("font_size huge"));
    assert_eq!(s.interp.render.font_size.raw, 16_000);
    s.handle_frame_line(&chars("font_size 11.5"));
    assert_eq!(s.interp.render.font_size.raw, 11_500);
}

#[test]
fn polygon_pairs_tokens_into_points() {
    let mut s = running_server();
    match s.handle_frame_line(&chars("polygon 0 0 10 0 10 10 5")) {
        FrameStep::Draw(DrawCmd::Polygon { points, .. }) => {
            let raws: Vec<(i64, i64)> = points.iter().map(|p| (p.0.raw, p.1.raw)).collect();
            assert_eq!(raws, [(0, 0), (10_000, 0), (10_000, 10_000)]);
        }
        _ => panic!("expected a polygon"),
    }
}

#[test]
fn show_cursor_only_the_word_false_hides() {
    let mut s = running_server();
    s.handle_frame_line(&chars("show_cursor false"));
    assert!(!s.interp.render.cursor_visible);
    s.handle_frame_line(&chars("show_cursor maybe"));
    assert!(s.interp.render.cursor_visible);
}

#[test]
fn clear_takes_the_current_draw_color() {
    let mut s = running_server();
    s.handle_frame_line(&chars("color 1 0 0"));
    s.handle_frame_line(&chars("clear"));
    let c = s.interp.render.clear_color;
    assert_eq!((c.r, c.g, c.b, c.a), (255, 0, 0, 255));
}

#[test]
fn unknown_frame_command_warns_and_changes_nothing() {
    let mut s = running_server();
    let before = s.interp.render;
    match s.handle_frame_line(&chars("teleport 1 2")) {
        FrameStep::Warn(msg) => assert_eq!(text(&msg), "Invalid frame command: teleport 1 2"),
        _ => panic!("expected a warning"),
    }
    assert_eq!(s.interp.render, before);
}

#[test]
fn passthrough_lines_reach_the_log_not_the_interpreter() {
    let mut s = running_server();
    let before = s.interp.render;
    match s.handle_frame_line(&chars("/color 1 0 0")) {
        FrameStep::Passthrough(t) => assert_eq!(text(&t), "color 1 0 0"),
        _ => panic!("expected passthrough"),
    }
    assert_eq!(s.interp.render, before);
}
