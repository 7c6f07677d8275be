//! The handshake negotiator: before the drawing surface exists, the child
//! declares the window title, size and vsync flag, and closes the phase
//! with `end_init`.
//!
//! Each line goes through the line parser.  Unknown or malformed commands
//! are warnings and change nothing; if the child closes before `end_init`,
//! the host simply never creates a surface (an early, clean exit, not an
//! error).

use vstd::prelude::*;

use crate::fixed::Fixed;
use crate::fixed::parse_fixed;
use crate::fixed::token_fixed;
use crate::lines::Parsed;
use crate::lines::ParsedSpec;
use crate::lines::is_word;
use crate::lines::parse_line;
use crate::lines::parse_line_spec;
use crate::lines::push_chars;
use crate::lines::str_chars;

verus! {

/// What the child asked of the window, and whether the handshake is over.
pub struct InitConfig {
    /// The window title; the rest of the `title` line, unsplit.
    pub title: Vec<char>,
    /// The requested window size, if the child asked for one.
    pub size: Option<(Fixed, Fixed)>,
    /// Whether the host should synchronise presentation to the display.
    pub vsync: bool,
    /// Whether `end_init` has arrived.
    pub done: bool,
}

pub struct InitModel {
    pub title: Seq<char>,
    pub size: Option<(Fixed, Fixed)>,
    pub vsync: bool,
    pub done: bool,
}

impl View for InitConfig {
    type V = InitModel;

    open spec fn view(&self) -> InitModel {
        InitModel { title: self.title@, size: self.size, vsync: self.vsync, done: self.done }
    }
}

/// What the negotiator says about one line.
pub enum InitStep {
    /// The line was handled (or ignored); keep reading.
    Continue,
    /// Echo this text to the host's log; keep reading.
    Passthrough(Vec<char>),
    /// Log this warning; keep reading.
    Warn(Vec<char>),
    /// `end_init` arrived: the handshake is over.
    Done,
}

pub enum InitStepSpec {
    Continue,
    Passthrough(Seq<char>),
    Warn(Seq<char>),
    Done,
}

impl View for InitStep {
    type V = InitStepSpec;

    open spec fn view(&self) -> InitStepSpec {
        match self {
            InitStep::Continue => InitStepSpec::Continue,
            InitStep::Passthrough(t) => InitStepSpec::Passthrough(t@),
            InitStep::Warn(t) => InitStepSpec::Warn(t@),
            InitStep::Done => InitStepSpec::Done,
        }
    }
}

pub open spec fn invalid_init_msg(name: Seq<char>, raw: Seq<char>) -> Seq<char> {
    "Invalid init command: "@ + name + seq![' '] + raw
}

pub open spec fn invalid_size_msg(t0: Seq<char>, t1: Seq<char>) -> Seq<char> {
    "Invalid window size: "@ + t0 + seq![' '] + t1
}

/// The negotiator's transition for one line: the new state and the step.
pub open spec fn init_step_spec(m: InitModel, line: Seq<char>) -> (InitModel, InitStepSpec) {
    match parse_line_spec(line) {
        ParsedSpec::Empty => (m, InitStepSpec::Continue),
        ParsedSpec::Passthrough(t) => (m, InitStepSpec::Passthrough(t)),
        ParsedSpec::Command { name, raw_args, tokens } => {
            if name == "title"@ {
                (InitModel { title: raw_args, ..m }, InitStepSpec::Continue)
            } else if name == "window_size"@ && tokens.len() == 2 {
                match (token_fixed(tokens[0]), token_fixed(tokens[1])) {
                    (Some(w), Some(h)) => (
                        InitModel { size: Some((w, h)), ..m },
                        InitStepSpec::Continue,
                    ),
                    _ => (m, InitStepSpec::Warn(invalid_size_msg(tokens[0], tokens[1]))),
                }
            } else if name == "vsync"@ && tokens.len() == 1 {
                (InitModel { vsync: tokens[0] == "true"@, ..m }, InitStepSpec::Continue)
            } else if name == "end_init"@ {
                (InitModel { done: true, ..m }, InitStepSpec::Done)
            } else {
                (m, InitStepSpec::Warn(invalid_init_msg(name, raw_args)))
            }
        },
    }
}

impl InitConfig {
    /// The negotiator's defaults: title "My Game", no size request, vsync
    /// on, handshake open.
    pub open spec fn spec_init() -> InitModel {
        InitModel { title: "My Game"@, size: None, vsync: true, done: false }
    }

    pub fn new() -> (c: InitConfig)
        ensures
            c@ == InitConfig::spec_init(),
    {
        InitConfig { title: str_chars("My Game"), size: None, vsync: true, done: false }
    }

    /// Feeds one line of child output to the negotiator.
    pub fn handle_init_line(&mut self, line: &[char]) -> (r: InitStep)
        requires
            !old(self)@.done,
        ensures
            (final(self)@, r@) == init_step_spec(old(self)@, line@),
    {
        let parsed = parse_line(line);
        match parsed {
            Parsed::Empty => InitStep::Continue,
            Parsed::Passthrough(t) => InitStep::Passthrough(t),
            Parsed::Command { name, raw_args, tokens } => {
                proof {
                    assert(tokens.deep_view().len() == tokens@.len());
                    assert(forall|k: int|
                        0 <= k < tokens@.len() ==> #[trigger] tokens.deep_view()[k]
                            == tokens@[k]@);
                }
                if is_word(name.as_slice(), "title") {
                    self.title = raw_args;
                    InitStep::Continue
                } else if is_word(name.as_slice(), "window_size") && tokens.len() == 2 {
                    let w = parse_fixed(tokens[0].as_slice());
                    let h = parse_fixed(tokens[1].as_slice());
                    match (w, h) {
                        (Some(w), Some(h)) => {
                            self.size = Some((w, h));
                            InitStep::Continue
                        },
                        _ => {
                            let mut msg = str_chars("Invalid window size: ");
                            push_chars(&mut msg, tokens[0].as_slice());
                            msg.push(' ');
                            push_chars(&mut msg, tokens[1].as_slice());
                            proof {
                                assert(msg@ =~= invalid_size_msg(
                                    tokens.deep_view()[0],
                                    tokens.deep_view()[1],
                                ));
                            }
                            InitStep::Warn(msg)
                        },
                    }
                } else if is_word(name.as_slice(), "vsync") && tokens.len() == 1 {
                    self.vsync = is_word(tokens[0].as_slice(), "true");
                    InitStep::Continue
                } else if is_word(name.as_slice(), "end_init") {
                    self.done = true;
                    InitStep::Done
                } else {
                    let mut msg = str_chars("Invalid init command: ");
                    push_chars(&mut msg, name.as_slice());
                    msg.push(' ');
                    push_chars(&mut msg, raw_args.as_slice());
                    proof {
                        assert(msg@ =~= invalid_init_msg(name@, raw_args@));
                    }
                    InitStep::Warn(msg)
                }
            },
        }
    }
}

} // verus!
