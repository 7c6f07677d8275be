//! The input encoder: once per tick, the host's observed state becomes the
//! ordered block of protocol lines the child reads, closed by `end_input`.
//!
//! The block holds, in order: a `window_resized` line only when the surface
//! size changed since the previous tick; one line per device event in
//! arrival order; the `dt` line with the seconds since the previous tick;
//! and the `end_input` sentinel.  The encoder also keeps the set of keys
//! currently held, so a key event can carry the "was already down" flag
//! that lets the child tell key repeat from a fresh press.

use vstd::prelude::*;

use crate::fixed::Fixed;
use crate::fixed::fmt_fixed;
use crate::fixed::push_fixed;
use crate::lines::chars_eq;
use crate::lines::push_chars;
use crate::lines::push_str;
use crate::lines::str_chars;

verus! {

/// How a boolean is written on the wire.
pub open spec fn fmt_bool(b: bool) -> Seq<char> {
    if b {
        "true"@
    } else {
        "false"@
    }
}

pub fn push_bool(out: &mut Vec<char>, b: bool)
    ensures
        final(out)@ == old(out)@ + fmt_bool(b),
{
    if b {
        push_str(out, "true");
    } else {
        push_str(out, "false");
    }
}

/// One device event the host observed since the previous tick.
pub enum InputEvent {
    /// A key went down or up, with the modifier state.
    Key { name: Vec<char>, pressed: bool, ctrl: bool, shift: bool, alt: bool },
    /// A pointer button went down or up, with the modifier state.
    MouseButton { name: Vec<char>, pressed: bool, ctrl: bool, shift: bool, alt: bool },
    /// The pointer moved to this position.
    MouseMoved { x: Fixed, y: Fixed },
}

pub enum InputEventSpec {
    Key { name: Seq<char>, pressed: bool, ctrl: bool, shift: bool, alt: bool },
    MouseButton { name: Seq<char>, pressed: bool, ctrl: bool, shift: bool, alt: bool },
    MouseMoved { x: Fixed, y: Fixed },
}

impl View for InputEvent {
    type V = InputEventSpec;

    open spec fn view(&self) -> InputEventSpec {
        match self {
            InputEvent::Key { name, pressed, ctrl, shift, alt } => InputEventSpec::Key {
                name: name@,
                pressed: *pressed,
                ctrl: *ctrl,
                shift: *shift,
                alt: *alt,
            },
            InputEvent::MouseButton { name, pressed, ctrl, shift, alt } => {
                InputEventSpec::MouseButton {
                    name: name@,
                    pressed: *pressed,
                    ctrl: *ctrl,
                    shift: *shift,
                    alt: *alt,
                }
            },
            InputEvent::MouseMoved { x, y } => InputEventSpec::MouseMoved { x: *x, y: *y },
        }
    }
}

impl DeepView for InputEvent {
    type V = InputEventSpec;

    open spec fn deep_view(&self) -> InputEventSpec {
        self.view()
    }
}

pub open spec fn key_line(
    name: Seq<char>,
    pressed: bool,
    was_down: bool,
    ctrl: bool,
    shift: bool,
    alt: bool,
) -> Seq<char> {
    "key "@ + name + seq![' '] + fmt_bool(pressed) + seq![' '] + fmt_bool(was_down) + seq![' ']
        + fmt_bool(ctrl) + seq![' '] + fmt_bool(shift) + seq![' '] + fmt_bool(alt)
}

pub open spec fn mouse_button_line(
    name: Seq<char>,
    pressed: bool,
    ctrl: bool,
    shift: bool,
    alt: bool,
) -> Seq<char> {
    "mouse_button "@ + name + seq![' '] + fmt_bool(pressed) + seq![' '] + fmt_bool(ctrl) + seq![' ']
        + fmt_bool(shift) + seq![' '] + fmt_bool(alt)
}

pub open spec fn mouse_moved_line(x: Fixed, y: Fixed) -> Seq<char> {
    "mouse_moved "@ + fmt_fixed(x.raw as int) + seq![' '] + fmt_fixed(y.raw as int)
}

pub open spec fn window_resized_line(w: Fixed, h: Fixed) -> Seq<char> {
    "window_resized "@ + fmt_fixed(w.raw as int) + seq![' '] + fmt_fixed(h.raw as int)
}

pub open spec fn dt_line(dt: Fixed) -> Seq<char> {
    "dt "@ + fmt_fixed(dt.raw as int)
}

/// Whether `name` is in the held-keys list.
pub open spec fn keys_contain(keys: Seq<Seq<char>>, name: Seq<char>) -> bool {
    exists|i: int| 0 <= i < keys.len() && keys[i] == name
}

/// The held-keys list after a press: unchanged when already held.
pub open spec fn keys_insert(keys: Seq<Seq<char>>, name: Seq<char>) -> Seq<Seq<char>> {
    if keys_contain(keys, name) {
        keys
    } else {
        keys.push(name)
    }
}

/// The held-keys list after a release: the first occurrence (the only one,
/// as presses never duplicate) is dropped.
pub open spec fn keys_erase(keys: Seq<Seq<char>>, name: Seq<char>) -> Seq<Seq<char>>
    decreases keys.len(),
{
    if keys.len() == 0 {
        keys
    } else if keys[0] == name {
        keys.drop_first()
    } else {
        seq![keys[0]] + keys_erase(keys.drop_first(), name)
    }
}

/// The line one event produces, and the held-keys list it leaves.
pub open spec fn event_line(keys: Seq<Seq<char>>, ev: InputEventSpec) -> (
    Seq<char>,
    Seq<Seq<char>>,
) {
    match ev {
        InputEventSpec::Key { name, pressed, ctrl, shift, alt } => (
            key_line(name, pressed, keys_contain(keys, name), ctrl, shift, alt),
            if pressed {
                keys_insert(keys, name)
            } else {
                keys_erase(keys, name)
            },
        ),
        InputEventSpec::MouseButton { name, pressed, ctrl, shift, alt } => (
            mouse_button_line(name, pressed, ctrl, shift, alt),
            keys,
        ),
        InputEventSpec::MouseMoved { x, y } => (mouse_moved_line(x, y), keys),
    }
}

/// The lines for a run of events, in arrival order, and the held-keys list
/// they leave.
pub open spec fn encode_events(keys: Seq<Seq<char>>, evs: Seq<InputEventSpec>) -> (
    Seq<Seq<char>>,
    Seq<Seq<char>>,
)
    decreases evs.len(),
{
    if evs.len() == 0 {
        (Seq::empty(), keys)
    } else {
        let (line, keys1) = event_line(keys, evs[0]);
        let (rest, keys2) = encode_events(keys1, evs.drop_first());
        (seq![line] + rest, keys2)
    }
}

fn key_line_exec(name: &[char], pressed: bool, was_down: bool, ctrl: bool, shift: bool, alt: bool) -> (l: Vec<char>)
    ensures
        l@ == key_line(name@, pressed, was_down, ctrl, shift, alt),
{
    let mut l = str_chars("key ");
    push_chars(&mut l, name);
    l.push(' ');
    push_bool(&mut l, pressed);
    l.push(' ');
    push_bool(&mut l, was_down);
    l.push(' ');
    push_bool(&mut l, ctrl);
    l.push(' ');
    push_bool(&mut l, shift);
    l.push(' ');
    push_bool(&mut l, alt);
    proof {
        assert(l@ =~= key_line(name@, pressed, was_down, ctrl, shift, alt));
    }
    l
}

fn mouse_button_line_exec(name: &[char], pressed: bool, ctrl: bool, shift: bool, alt: bool) -> (l: Vec<char>)
    ensures
        l@ == mouse_button_line(name@, pressed, ctrl, shift, alt),
{
    let mut l = str_chars("mouse_button ");
    push_chars(&mut l, name);
    l.push(' ');
    push_bool(&mut l, pressed);
    l.push(' ');
    push_bool(&mut l, ctrl);
    l.push(' ');
    push_bool(&mut l, shift);
    l.push(' ');
    push_bool(&mut l, alt);
    proof {
        assert(l@ =~= mouse_button_line(name@, pressed, ctrl, shift, alt));
    }
    l
}

fn mouse_moved_line_exec(x: Fixed, y: Fixed) -> (l: Vec<char>)
    ensures
        l@ == mouse_moved_line(x, y),
{
    let mut l = str_chars("mouse_moved ");
    push_fixed(&mut l, x);
    l.push(' ');
    push_fixed(&mut l, y);
    proof {
        assert(l@ =~= mouse_moved_line(x, y));
    }
    l
}

/// The encoder's persistent state.
pub struct InputTracker {
    keys_down: Vec<Vec<char>>,
    last_size: (Fixed, Fixed),
}

pub struct TrackerModel {
    pub keys: Seq<Seq<char>>,
    pub last_size: (Fixed, Fixed),
}

impl View for InputTracker {
    type V = TrackerModel;

    closed spec fn view(&self) -> TrackerModel {
        TrackerModel { keys: self.keys_down.deep_view(), last_size: self.last_size }
    }
}

/// The whole tick's block: the conditional resize line, the event lines,
/// the `dt` line, the `end_input` sentinel — and the state for next tick.
pub open spec fn encode_tick_spec(
    m: TrackerModel,
    width: Fixed,
    height: Fixed,
    evs: Seq<InputEventSpec>,
    dt: Fixed,
) -> (TrackerModel, Seq<Seq<char>>) {
    let head: Seq<Seq<char>> = if (width, height) != m.last_size {
        seq![window_resized_line(width, height)]
    } else {
        Seq::empty()
    };
    let (ev_lines, keys2) = encode_events(m.keys, evs);
    (
        TrackerModel { keys: keys2, last_size: (width, height) },
        head + ev_lines + seq![dt_line(dt)] + seq!["end_input"@],
    )
}

proof fn lemma_keys_erase_at(keys: Seq<Seq<char>>, name: Seq<char>, i: int)
    requires
        0 <= i < keys.len(),
        keys[i] == name,
        forall|k: int| 0 <= k < i ==> keys[k] != name,
    ensures
        keys_erase(keys, name) =~= keys.remove(i),
    decreases i,
{
    if i > 0 {
        lemma_keys_erase_at(keys.drop_first(), name, i - 1);
        assert(keys.drop_first().remove(i - 1) =~= keys.remove(i).drop_first());
        assert(seq![keys[0]] + keys.remove(i).drop_first() =~= keys.remove(i));
    } else {
        assert(keys.drop_first() =~= keys.remove(0));
    }
}

proof fn lemma_keys_erase_absent(keys: Seq<Seq<char>>, name: Seq<char>)
    requires
        forall|k: int| 0 <= k < keys.len() ==> keys[k] != name,
    ensures
        keys_erase(keys, name) =~= keys,
    decreases keys.len(),
{
    if keys.len() > 0 {
        lemma_keys_erase_absent(keys.drop_first(), name);
        assert(seq![keys[0]] + keys.drop_first() =~= keys);
    }
}

impl InputTracker {
    /// A fresh tracker: no keys held, last size zero (so the first tick
    /// with a non-zero surface reports a resize).
    pub fn new() -> (t: InputTracker)
        ensures
            t@.keys == Seq::<Seq<char>>::empty(),
            t@.last_size == (Fixed { raw: 0 }, Fixed { raw: 0 }),
    {
        InputTracker { keys_down: Vec::new(), last_size: (Fixed { raw: 0 }, Fixed { raw: 0 }) }
    }

    fn contains_key(&self, name: &[char]) -> (r: bool)
        ensures
            r == keys_contain(self@.keys, name@),
    {
        let n = self.keys_down.len();
        let mut j: usize = 0;
        while j < n
            invariant
                0 <= j <= n == self.keys_down@.len(),
                forall|k: int| 0 <= k < j ==> self.keys_down.deep_view()[k] != name@,
            decreases n - j,
        {
            if chars_eq(self.keys_down[j].as_slice(), name) {
                proof {
                    assert(self.keys_down.deep_view()[j as int] == name@);
                }
                return true;
            }
            proof {
                assert(self.keys_down.deep_view()[j as int] == self.keys_down@[j as int]@);
            }
            j = j + 1;
        }
        proof {
            assert(self.keys_down.deep_view().len() == n);
        }
        false
    }

    fn press_key(&mut self, name: &[char])
        ensures
            final(self)@.keys == keys_insert(old(self)@.keys, name@),
            final(self)@.last_size == old(self)@.last_size,
    {
        if !self.contains_key(name) {
            let ghost prev = self.keys_down.deep_view();
            let mut copy: Vec<char> = Vec::new();
            push_chars(&mut copy, name);
            self.keys_down.push(copy);
            proof {
                assert(self.keys_down.deep_view() =~~= prev.push(name@));
            }
        }
    }

    fn release_key(&mut self, name: &[char])
        ensures
            final(self)@.keys == keys_erase(old(self)@.keys, name@),
            final(self)@.last_size == old(self)@.last_size,
    {
        let n = self.keys_down.len();
        let mut j: usize = 0;
        while j < n
            invariant
                0 <= j <= n == self.keys_down@.len(),
                *self == *old(self),
                forall|k: int| 0 <= k < j ==> #[trigger] self.keys_down.deep_view()[k] != name@,
            decreases n - j,
        {
            if chars_eq(self.keys_down[j].as_slice(), name) {
                let ghost prev = self.keys_down.deep_view();
                proof {
                    assert(prev[j as int] == self.keys_down@[j as int]@);
                }
                self.keys_down.remove(j);
                proof {
                    lemma_keys_erase_at(prev, name@, j as int);
                    assert(self.keys_down.deep_view() =~~= prev.remove(j as int));
                }
                return ;
            }
            proof {
                assert(self.keys_down.deep_view()[j as int] == self.keys_down@[j as int]@);
            }
            j = j + 1;
        }
        proof {
            lemma_keys_erase_absent(self.keys_down.deep_view(), name@);
        }
    }

    /// Encodes one tick: the lines to write to the child, in order, always
    /// ending with `end_input`; the tracker learns the new surface size and
    /// the keys left held.
    #[verifier::rlimit(100)]
    pub fn send_input_lines(
        &mut self,
        width: Fixed,
        height: Fixed,
        events: &Vec<InputEvent>,
        dt: Fixed,
    ) -> (lines: Vec<Vec<char>>)
        ensures
            (final(self)@, lines.deep_view()) == encode_tick_spec(
                old(self)@,
                width,
                height,
                events.deep_view(),
                dt,
            ),
    {
        let ghost evs = events.deep_view();
        let ghost m0 = self@;
        let ghost total = encode_events(m0.keys, evs);
        let mut lines: Vec<Vec<char>> = Vec::new();
        // window size, only on change
        let resized: bool = width.raw != self.last_size.0.raw || height.raw
            != self.last_size.1.raw;
        if resized {
            let mut l = str_chars("window_resized ");
            push_fixed(&mut l, width);
            l.push(' ');
            push_fixed(&mut l, height);
            proof {
                assert(l@ =~= window_resized_line(width, height));
            }
            lines.push(l);
        }
        let ghost head = lines.deep_view();
        proof {
            if (width, height) != m0.last_size {
                assert(head =~~= seq![window_resized_line(width, height)]);
            } else {
                assert(head =~~= Seq::<Seq<char>>::empty());
            }
            assert(evs.skip(0) =~= evs);
            assert(lines.deep_view().take(head.len() as int) =~~= head);
            assert(lines.deep_view().skip(head.len() as int) =~~= Seq::<Seq<char>>::empty());
            assert(Seq::<Seq<char>>::empty() + total.0 =~~= total.0);
            assert(self@.keys == m0.keys);
        }
        // the events, in arrival order
        let n = events.len();
        let mut i: usize = 0;
        while i < n
            invariant
                0 <= i <= n == events@.len(),
                evs == events.deep_view(),
                evs.len() == n,
                head.len() <= lines.deep_view().len(),
                lines.deep_view().take(head.len() as int) == head,
                ({
                    let done = lines.deep_view().skip(head.len() as int);
                    let (rest, keys2) = encode_events(self@.keys, evs.skip(i as int));
                    &&& (done + rest, keys2) == total
                    &&& self@.last_size == m0.last_size
                }),
            decreases n - i,
        {
            proof {
                assert(forall|k: int| 0 <= k < n ==> #[trigger] evs[k] == events@[k]@);
                assert(evs.skip(i as int)[0] == evs[i as int]);
                assert(evs.skip(i as int).drop_first() =~= evs.skip(i + 1));
            }
            let ghost keys_before = self@.keys;
            let ghost before = lines.deep_view();
            let line: Vec<char> = match &events[i] {
                InputEvent::Key { name, pressed, ctrl, shift, alt } => {
                    let was_down = self.contains_key(name.as_slice());
                    let l = key_line_exec(name.as_slice(), *pressed, was_down, *ctrl, *shift, *alt);
                    if *pressed {
                        self.press_key(name.as_slice());
                    } else {
                        self.release_key(name.as_slice());
                    }
                    l
                },
                InputEvent::MouseButton { name, pressed, ctrl, shift, alt } => {
                    mouse_button_line_exec(name.as_slice(), *pressed, *ctrl, *shift, *alt)
                },
                InputEvent::MouseMoved { x, y } => mouse_moved_line_exec(*x, *y),
            };
            lines.push(line);
            proof {
                assert(event_line(keys_before, evs[i as int]) == (line@, self@.keys));
                assert(encode_events(keys_before, evs.skip(i as int)) == (
                    seq![line@] + encode_events(self@.keys, evs.skip(i + 1)).0,
                    encode_events(self@.keys, evs.skip(i + 1)).1,
                ));
                assert(lines.deep_view() =~~= before.push(line@));
                assert(lines.deep_view().take(head.len() as int) =~~= head);
                assert(lines.deep_view().skip(head.len() as int) =~~= before.skip(
                    head.len() as int,
                ).push(line@));
                let (rest, keys2) = encode_events(self@.keys, evs.skip(i + 1));
                assert(before.skip(head.len() as int).push(line@) + rest =~~= before.skip(
                    head.len() as int,
                ) + (seq![line@] + rest));
            }
            i = i + 1;
        }
        proof {
            assert(evs.skip(n as int) =~= Seq::<InputEventSpec>::empty());
            let done = lines.deep_view().skip(head.len() as int);
            assert(done + Seq::<Seq<char>>::empty() =~~= done);
        }
        // the elapsed time, then the sentinel
        let mut dtl = str_chars("dt ");
        push_fixed(&mut dtl, dt);
        proof {
            assert(dtl@ =~= dt_line(dt));
        }
        let ghost before_dt = lines.deep_view();
        lines.push(dtl);
        let endl = str_chars("end_input");
        lines.push(endl);
        self.last_size = (width, height);
        proof {
            assert(lines.deep_view() =~~= before_dt + seq![dt_line(dt), "end_input"@]);
            let (mfin, expect) = encode_tick_spec(m0, width, height, evs, dt);
            assert(before_dt =~~= head + total.0);
            assert(lines.deep_view() =~~= expect);
            assert(final(self)@ == mfin);
        }
        lines
    }
}

} // verus!
