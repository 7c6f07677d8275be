//! End-to-end scenarios against the protocol engine.

use print_game::cache::Texture;
use print_game::frame::{DrawCmd, FrameStep};
use print_game::init::InitStep;
use print_game::lifecycle::{IoDecision, IoFailure};
use print_game::server::{Phase, Server};

fn chars(s: &str) -> Vec<char> {
    s.chars().collect()
}

fn text(v: &[char]) -> String {
    v.iter().collect()
}

#[test]
fn init_scenario_negotiates_title_and_size() {
    let mut s = Server::new();
    assert!(matches!(
        s.handle_init_line(&chars("title Demo")),
        InitStep::Continue
    ));
    assert!(matches!(
        s.handle_init_line(&chars("window_size 800 600")),
        InitStep::Continue
    ));
    // an unknown command is a warning, not an abort
    match s.handle_init_line(&chars("foo bar")) {
        InitStep::Warn(msg) => assert_eq!(text(&msg), "Invalid init command: foo bar"),
        _ => panic!("expected a warning"),
    }
    assert!(matches!(s.handle_init_line(&chars("end_init")), InitStep::Done));
    assert_eq!(text(&s.init.title), "Demo");
    let (w, h) = s.init.size.expect("size was negotiated");
    assert_eq!(w.raw, 800_000);
    assert_eq!(h.raw, 600_000);
    assert_eq!(s.phase, Phase::Running);
}

#[test]
fn init_defaults_and_passthrough() {
    let mut s = Server::new();
    assert_eq!(text(&s.init.title), "My Game");
    assert!(s.init.size.is_none());
    match s.handle_init_line(&chars("/booting up")) {
        InitStep::Passthrough(t) => assert_eq!(text(&t), "booting up"),
        _ => panic!("expected passthrough"),
    }
    // a blank line is ignored
    assert!(matches!(s.handle_init_line(&chars("   ")), InitStep::Continue));
    assert_eq!(s.phase, Phase::Negotiating);
}

#[test]
fn init_vsync_and_malformed_size() {
    let mut s = Server::new();
    assert!(s.init.vsync);
    s.handle_init_line(&chars("vsync false"));
    assert!(!s.init.vsync);
    s.handle_init_line(&chars("vsync true"));
    assert!(s.init.vsync);
    match s.handle_init_line(&chars("window_size eight hundred")) {
        InitStep::Warn(msg) => assert_eq!(text(&msg), "Invalid window size: eight hundred"),
        _ => panic!("expected a warning"),
    }
    assert!(s.init.size.is_none());
}

fn running_server() -> Server {
    let mut s = Server::new();
    s.handle_init_line(&chars("end_init"));
    s
}

#[test]
fn frame_scenario_one_red_rectangle() {
    let mut s = running_server();
    assert!(matches!(
        s.handle_frame_line(&chars("color 1 0 0")),
        FrameStep::Continue
    ));
    // exactly one draw call: a filled 20x20 rectangle at (10, 10), in red
    match s.handle_frame_line(&chars("rectangle 10 10 20 20")) {
        FrameStep::Draw(DrawCmd::Rect { rect, color }) => {
            assert_eq!(rect.x.raw, 10_000);
            assert_eq!(rect.y.raw, 10_000);
            assert_eq!(rect.w.raw, 20_000);
            assert_eq!(rect.h.raw, 20_000);
            assert_eq!((color.r, color.g, color.b, color.a), (255, 0, 0, 255));
        }
        _ => panic!("expected a rectangle"),
    }
    assert!(matches!(s.handle_frame_line(&chars("end_frame")), FrameStep::EndFrame));
    // the draw colour persists into the next frame
    match s.handle_frame_line(&chars("rectangle 0 0 1 1")) {
        FrameStep::Draw(DrawCmd::Rect { color, .. }) => {
            assert_eq!((color.r, color.g, color.b, color.a), (255, 0, 0, 255));
        }
        _ => panic!("expected a rectangle"),
    }
}

#[test]
fn malformed_color_leaves_state_and_frame_alive() {
    let mut s = running_server();
    let before = s.interp.render.draw_color;
    match s.handle_frame_line(&chars("color notanumber notanumber notanumber")) {
        FrameStep::Warn(msg) => {
            assert_eq!(text(&msg), "Invalid color: notanumber notanumber notanumber")
        }
        _ => panic!("expected a warning"),
    }
    assert_eq!(s.interp.render.draw_color, before);
    // the next valid command in the same frame still applies
    assert!(matches!(
        s.handle_frame_line(&chars("color 0 1 0")),
        FrameStep::Continue
    ));
    assert_eq!(
        (
            s.interp.render.draw_color.r,
            s.interp.render.draw_color.g,
            s.interp.render.draw_color.b,
            s.interp.render.draw_color.a
        ),
        (0, 255, 0, 255)
    );
}

#[test]
fn css_color_expression_sets_the_draw_color() {
    let mut s = running_server();
    assert!(matches!(s.handle_frame_line(&chars("color red")), FrameStep::Continue));
    let c = s.interp.render.draw_color;
    assert_eq!((c.r, c.g, c.b, c.a), (255, 0, 0, 255));
}

#[test]
fn numeric_color_channels_round_half_away() {
    let mut s = running_server();
    s.handle_frame_line(&chars("color 0.5 0 1 0.25"));
    let c = s.interp.render.draw_color;
    assert_eq!((c.r, c.g, c.b, c.a), (128, 0, 255, 64));
}

#[test]
fn texture_query_scenario_replies_before_next_input() {
    let mut s = running_server();
    // first reference: the engine asks for the one load
    let path = match s.handle_frame_line(&chars("get_texture_size assets/x.png")) {
        FrameStep::NeedTexture(p) => p,
        _ => panic!("expected a load request"),
    };
    assert_eq!(text(&path), "assets/x.png");
    s.record_texture(path, Some(Texture { width: 64, height: 32, id: 7 }));
    // the same line now answers synchronously on the child's input channel
    match s.handle_frame_line(&chars("get_texture_size assets/x.png")) {
        FrameStep::Reply(line) => assert_eq!(text(&line), "64 32"),
        _ => panic!("expected a reply"),
    }
}

#[test]
fn negative_caching_loads_a_broken_path_once() {
    let mut s = running_server();
    // first reference: the one load attempt
    let path = match s.handle_frame_line(&chars("image assets/broken.png")) {
        FrameStep::NeedTexture(p) => p,
        _ => panic!("expected a load request"),
    };
    s.record_texture(path, None);
    // both later references are answered from the cache, with the failure
    assert!(matches!(
        s.handle_frame_line(&chars("image assets/broken.png")),
        FrameStep::Continue
    ));
    assert!(matches!(
        s.handle_frame_line(&chars("get_texture_size assets/broken.png")),
        FrameStep::Continue
    ));
}

#[test]
fn image_command_defaults_and_overrides() {
    let mut s = running_server();
    let path = match s.handle_frame_line(&chars("image img.png")) {
        FrameStep::NeedTexture(p) => p,
        _ => panic!("expected a load request"),
    };
    s.record_texture(path, Some(Texture { width: 16, height: 8, id: 3 }));
    match s.handle_frame_line(&chars("image img.png")) {
        FrameStep::Draw(DrawCmd::Image { id, rect, uv_min, uv_max }) => {
            assert_eq!(id, 3);
            assert_eq!((rect.x.raw, rect.y.raw), (0, 0));
            assert_eq!((rect.w.raw, rect.h.raw), (16_000, 8_000));
            assert_eq!((uv_min.0.raw, uv_min.1.raw), (0, 0));
            assert_eq!((uv_max.0.raw, uv_max.1.raw), (1_000, 1_000));
        }
        _ => panic!("expected an image"),
    }
    // positional overrides, stopping at the missing tail
    match s.handle_frame_line(&chars("image img.png 5 6 32")) {
        FrameStep::Draw(DrawCmd::Image { rect, .. }) => {
            assert_eq!((rect.x.raw, rect.y.raw), (5_000, 6_000));
            assert_eq!((rect.w.raw, rect.h.raw), (32_000, 8_000));
        }
        _ => panic!("expected an image"),
    }
}

#[test]
fn child_exit_mid_tick_kills_once_and_signals_closure() {
    let mut s = running_server();
    s.handle_frame_line(&chars("color 0 0 1"));
    // the pipe breaks mid-read: expected closure, kill issued, no error
    match s.on_io_failure(IoFailure::ChildClosed) {
        IoDecision::CloseSurface { issue_kill } => assert!(issue_kill),
        _ => panic!("expected closure"),
    }
    assert_eq!(s.phase, Phase::Closed);
    // an interrupt handler racing to kill the same child is a no-op
    assert!(!s.shutdown());
    // already-applied register changes are never rolled back
    assert_eq!(s.interp.render.draw_color.b, 255);
}

#[test]
fn other_io_failures_propagate_without_closure() {
    let mut s = running_server();
    assert!(matches!(s.on_io_failure(IoFailure::Other), IoDecision::Propagate));
    assert_eq!(s.phase, Phase::Running);
    assert!(s.child.alive);
}

#[test]
fn idempotent_kill_any_number_of_times() {
    let mut s = running_server();
    assert!(s.shutdown());
    for _ in 0..5 {
        assert!(!s.shutdown());
        assert!(!s.child.alive);
    }
}
