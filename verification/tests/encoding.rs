//! The per-tick input encoder.

use print_game::fixed::Fixed;
use print_game::input::InputEvent;
use print_game::server::Server;

fn chars(s: &str) -> Vec<char> {
    s.chars().collect()
}

fn texts(lines: &[Vec<char>]) -> Vec<String> {
    lines.iter().map(|l| l.iter().collect()).collect()
}

fn running_server() -> Server {
    let mut s = Server::new();
    s.handle_init_line(&chars("end_init"));
    s
}

fn units(n: i32) -> Fixed {
    Fixed::from_units(n)
}

#[test]
fn first_tick_reports_the_size_then_events_then_dt() {
    let mut s = running_server();
    let events = vec![
        InputEvent::Key { name: chars("A"), pressed: true, ctrl: false, shift: true, alt: false },
        InputEvent::MouseMoved { x: units(12), y: Fixed { raw: 34_500 } },
    ];
    let lines = s.send_input_lines(units(800), units(600), &events, Fixed { raw: 16 });
    assert_eq!(
        texts(&lines),
        [
            "window_resized 800 600",
            "key A true false false true false",
            "mouse_moved 12 34.5",
            "dt 0.016",
            "end_input",
        ]
    );
}

#[test]
fn stable_size_emits_no_resize_line() {
    let mut s = running_server();
    s.send_input_lines(units(800), units(600), &Vec::new(), units(0));
    let lines = s.send_input_lines(units(800), units(600), &Vec::new(), units(0));
    assert_eq!(texts(&lines), ["dt 0", "end_input"]);
}

#[test]
fn key_repeat_carries_the_was_down_flag() {
    let mut s = running_server();
    let press = |s: &mut Server| {
        let events = vec![InputEvent::Key {
            name: chars("Space"),
            pressed: true,
            ctrl: false,
            shift: false,
            alt: false,
        }];
        s.send_input_lines(units(100), units(100), &events, units(0))
    };
    let first = press(&mut s);
    assert!(texts(&first).contains(&"key Space true false false false false".to_string()));
    // held key: the repeat press reports it as already down
    let second = press(&mut s);
    assert!(texts(&second).contains(&"key Space true true false false false".to_string()));
    // release, then press again: fresh press once more
    let release = vec![InputEvent::Key {
        name: chars("Space"),
        pressed: false,
        ctrl: false,
        shift: false,
        alt: false,
    }];
    s.send_input_lines(units(100), units(100), &release, units(0));
    let third = press(&mut s);
    assert!(texts(&third).contains(&"key Space true false false false false".to_string()));
}

#[test]
fn mouse_button_line_shape() {
    let mut s = running_server();
    let events = vec![InputEvent::MouseButton {
        name: chars("Primary"),
        pressed: true,
        ctrl: true,
        shift: false,
        alt: false,
    }];
    let lines = s.send_input_lines(units(100), units(100), &events, units(1));
    assert_eq!(
        texts(&lines),
        [
            "window_resized 100 100",
            "mouse_button Primary true true false false",
            "dt 1",
            "end_input",
        ]
    );
}
