//! The line parser: one line of protocol text becomes a command name, its
//! raw argument text, and the argument tokens.
//!
//! A line is first trimmed of surrounding whitespace.  An empty line is
//! ignored.  A line beginning with the passthrough marker `/` is not a
//! command: the text after the marker goes verbatim to the host's log.  Any
//! other line splits on the first whitespace run into the command name and
//! the raw arguments; the raw arguments split further on whitespace runs
//! into tokens, while staying available unsplit for commands whose trailing
//! argument is free text.

use vstd::prelude::*;
use vstd::string::StrSliceExecFns;

verus! {

/// The protocol's whitespace: the ASCII separators a child may put between
/// tokens.
pub open spec fn is_ws(c: char) -> bool {
    c == ' ' || c == '\t' || c == '\r' || c == '\n'
}

pub fn is_ws_char(c: char) -> (r: bool)
    ensures
        r == is_ws(c),
{
    c == ' ' || c == '\t' || c == '\r' || c == '\n'
}

/// `s` without leading whitespace.
pub open spec fn trim_front(s: Seq<char>) -> Seq<char>
    decreases s.len(),
{
    if s.len() > 0 && is_ws(s[0]) {
        trim_front(s.drop_first())
    } else {
        s
    }
}

/// `s` without trailing whitespace.
pub open spec fn trim_back(s: Seq<char>) -> Seq<char>
    decreases s.len(),
{
    if s.len() > 0 && is_ws(s.last()) {
        trim_back(s.drop_last())
    } else {
        s
    }
}

/// `s` without surrounding whitespace.
pub open spec fn trim(s: Seq<char>) -> Seq<char> {
    trim_back(trim_front(s))
}

/// The length of the token at the head of `s`: the index of the first
/// whitespace character, or the length when there is none.
pub open spec fn token_end(s: Seq<char>) -> nat
    decreases s.len(),
{
    if s.len() == 0 || is_ws(s[0]) {
        0
    } else {
        1 + token_end(s.drop_first())
    }
}

/// The whitespace-run-separated tokens of `s`.
pub open spec fn tokens_of(s: Seq<char>) -> Seq<Seq<char>>
    decreases s.len(),
    via tokens_of_decreases
{
    if s.len() == 0 {
        Seq::empty()
    } else if is_ws(s[0]) {
        tokens_of(s.drop_first())
    } else {
        seq![s.take(token_end(s) as int)] + tokens_of(s.skip(token_end(s) as int))
    }
}

#[via_fn]
proof fn tokens_of_decreases(s: Seq<char>) {
    if s.len() > 0 && !is_ws(s[0]) {
        lemma_token_end_le_len(s);
        assert(token_end(s) == 1 + token_end(s.drop_first()));
    }
}

pub proof fn lemma_token_end_le_len(s: Seq<char>)
    ensures
        token_end(s) <= s.len(),
    decreases s.len(),
{
    if s.len() > 0 && !is_ws(s[0]) {
        lemma_token_end_le_len(s.drop_first());
    }
}

/// The text after the head token and the whitespace run that follows it.
pub open spec fn skip_token(s: Seq<char>) -> Seq<char> {
    trim_front(s.skip(token_end(s) as int))
}

/// What one line of child output means to the engine.
pub enum Parsed {
    /// The line was empty (or whitespace only): nothing to do.
    Empty,
    /// The line carried the passthrough marker: echo this text to the log.
    Passthrough(Vec<char>),
    /// A command line.
    Command { name: Vec<char>, raw_args: Vec<char>, tokens: Vec<Vec<char>> },
}

pub enum ParsedSpec {
    Empty,
    Passthrough(Seq<char>),
    Command { name: Seq<char>, raw_args: Seq<char>, tokens: Seq<Seq<char>> },
}

impl View for Parsed {
    type V = ParsedSpec;

    open spec fn view(&self) -> ParsedSpec {
        match self {
            Parsed::Empty => ParsedSpec::Empty,
            Parsed::Passthrough(t) => ParsedSpec::Passthrough(t@),
            Parsed::Command { name, raw_args, tokens } => ParsedSpec::Command {
                name: name@,
                raw_args: raw_args@,
                tokens: tokens.deep_view(),
            },
        }
    }
}

/// What `parse_line` returns for a given line.
pub open spec fn parse_line_spec(line: Seq<char>) -> ParsedSpec {
    let t = trim(line);
    if t.len() == 0 {
        ParsedSpec::Empty
    } else if t[0] == '/' {
        if t.len() == 1 {
            ParsedSpec::Empty
        } else {
            ParsedSpec::Passthrough(t.drop_first())
        }
    } else {
        let name = t.take(token_end(t) as int);
        let raw = trim_front(t.skip(token_end(t) as int));
        ParsedSpec::Command { name, raw_args: raw, tokens: tokens_of(raw) }
    }
}

proof fn lemma_trim_front_skip(s: Seq<char>, a: int)
    requires
        0 <= a <= s.len(),
        forall|k: int| 0 <= k < a ==> is_ws(s[k]),
        a == s.len() || !is_ws(s[a]),
    ensures
        trim_front(s) =~= s.skip(a),
    decreases a,
{
    if a > 0 {
        lemma_trim_front_skip(s.drop_first(), a - 1);
        assert(s.drop_first().skip(a - 1) =~= s.skip(a));
    } else {
        assert(s.skip(0) =~= s);
    }
}

proof fn lemma_trim_back_take(s: Seq<char>, b: int)
    requires
        0 <= b <= s.len(),
        forall|k: int| b <= k < s.len() ==> is_ws(s[k]),
        b == 0 || !is_ws(s[b - 1]),
    ensures
        trim_back(s) =~= s.take(b),
    decreases s.len(),
{
    if b < s.len() {
        lemma_trim_back_take(s.drop_last(), b);
        assert(s.drop_last().take(b) =~= s.take(b));
    } else {
        assert(s.take(b) =~= s);
    }
}

proof fn lemma_token_end_at(s: Seq<char>, e: int)
    requires
        0 <= e <= s.len(),
        forall|k: int| 0 <= k < e ==> !is_ws(s[k]),
        e == s.len() || is_ws(s[e]),
    ensures
        token_end(s) == e,
    decreases e,
{
    if e > 0 {
        lemma_token_end_at(s.drop_first(), e - 1);
    }
}

/// Appends a copy of `s` to `out`.
pub fn push_chars(out: &mut Vec<char>, s: &[char])
    ensures
        final(out)@ == old(out)@ + s@,
{
    let n = s.len();
    let mut j: usize = 0;
    while j < n
        invariant
            0 <= j <= n == s@.len(),
            out@ =~= old(out)@ + s@.take(j as int),
        decreases n - j,
    {
        out.push(s[j]);
        proof {
            assert(old(out)@ + s@.take(j as int) + seq![s@[j as int]] =~= old(out)@ + s@.take(
                j + 1,
            ));
        }
        j = j + 1;
    }
    proof {
        assert(s@.take(n as int) =~= s@);
    }
}

/// Appends the text of `s` to `out`.
pub fn push_str(out: &mut Vec<char>, s: &str)
    ensures
        final(out)@ == old(out)@ + s@,
{
    let n = s.unicode_len();
    let mut j: usize = 0;
    while j < n
        invariant
            0 <= j <= n == s@.len(),
            out@ =~= old(out)@ + s@.take(j as int),
        decreases n - j,
    {
        out.push(s.get_char(j));
        proof {
            assert(old(out)@ + s@.take(j as int) + seq![s@[j as int]] =~= old(out)@ + s@.take(
                j + 1,
            ));
        }
        j = j + 1;
    }
    proof {
        assert(s@.take(n as int) =~= s@);
    }
}

/// A fresh copy of the text after the head token of `s` and the whitespace
/// run that follows it.
pub fn skip_token_copy(s: &[char]) -> (r: Vec<char>)
    ensures
        r@ == skip_token(s@),
{
    let n = s.len();
    let mut e: usize = 0;
    while e < n && !is_ws_char(s[e])
        invariant
            0 <= e <= n == s@.len(),
            forall|k: int| 0 <= k < e ==> !is_ws(s@[k]),
        decreases n - e,
    {
        e = e + 1;
    }
    proof {
        lemma_token_end_at(s@, e as int);
    }
    let mut g: usize = e;
    while g < n && is_ws_char(s[g])
        invariant
            e <= g <= n == s@.len(),
            forall|k: int| e <= k < g ==> is_ws(s@[k]),
        decreases n - g,
    {
        g = g + 1;
    }
    proof {
        lemma_trim_front_skip(s@.skip(e as int), g - e);
        assert(trim_front(s@.skip(e as int)) =~= s@.subrange(g as int, n as int));
    }
    copy_range(s, g, n)
}

/// Whether the token `tok` is the word `lit`.
pub fn is_word(tok: &[char], lit: &str) -> (r: bool)
    ensures
        r == (tok@ == lit@),
{
    let n = lit.unicode_len();
    if tok.len() != n {
        proof {
            assert(tok@.len() != lit@.len());
        }
        return false;
    }
    let mut j: usize = 0;
    while j < n
        invariant
            0 <= j <= n,
            n == tok@.len() == lit@.len(),
            forall|k: int| 0 <= k < j ==> tok@[k] == lit@[k],
        decreases n - j,
    {
        if tok[j] != lit.get_char(j) {
            return false;
        }
        j = j + 1;
    }
    proof {
        assert(tok@ =~= lit@);
    }
    true
}

/// A fresh vector holding the text of `s`.
pub fn str_chars(s: &str) -> (r: Vec<char>)
    ensures
        r@ == s@,
{
    let mut out: Vec<char> = Vec::new();
    push_str(&mut out, s);
    out
}

/// Whether two character slices hold the same text.
pub fn chars_eq(a: &[char], b: &[char]) -> (r: bool)
    ensures
        r == (a@ == b@),
{
    if a.len() != b.len() {
        proof {
            assert(a@.len() != b@.len());
        }
        return false;
    }
    let n = a.len();
    let mut j: usize = 0;
    while j < n
        invariant
            0 <= j <= n,
            n == a@.len() == b@.len(),
            forall|k: int| 0 <= k < j ==> a@[k] == b@[k],
        decreases n - j,
    {
        if a[j] != b[j] {
            return false;
        }
        j = j + 1;
    }
    proof {
        assert(a@ =~= b@);
    }
    true
}

/// A fresh copy of `s[a..b]`.
pub fn copy_range(s: &[char], a: usize, b: usize) -> (r: Vec<char>)
    requires
        a <= b <= s@.len(),
    ensures
        r@ == s@.subrange(a as int, b as int),
{
    let mut out: Vec<char> = Vec::new();
    let mut j: usize = a;
    while j < b
        invariant
            a <= j <= b <= s@.len(),
            out@ =~= s@.subrange(a as int, j as int),
        decreases b - j,
    {
        out.push(s[j]);
        proof {
            assert(out@ =~= s@.subrange(a as int, j + 1));
        }
        j = j + 1;
    }
    out
}

/// Splits one line of child output: the passthrough marker wins, an empty
/// line is nothing, and anything else is a command with its arguments.
pub fn parse_line(line: &[char]) -> (r: Parsed)
    ensures
        r@ == parse_line_spec(line@),
{
    let n = line.len();
    // trim the surrounding whitespace
    let mut a: usize = 0;
    while a < n && is_ws_char(line[a])
        invariant
            0 <= a <= n == line@.len(),
            forall|k: int| 0 <= k < a ==> is_ws(line@[k]),
        decreases n - a,
    {
        a = a + 1;
    }
    let mut b: usize = n;
    while b > a && is_ws_char(line[b - 1])
        invariant
            a <= b <= n == line@.len(),
            forall|k: int| b <= k < n ==> is_ws(line@[k]),
        decreases b,
    {
        b = b - 1;
    }
    let ghost t = trim(line@);
    proof {
        lemma_trim_front_skip(line@, a as int);
        if a == n {
            assert(b == a);
        }
        lemma_trim_back_take(line@.skip(a as int), b - a);
        assert(t =~= line@.subrange(a as int, b as int));
    }
    if a == b {
        return Parsed::Empty;
    }
    if line[a] == '/' {
        if a + 1 == b {
            return Parsed::Empty;
        }
        let text = copy_range(line, a + 1, b);
        proof {
            assert(text@ =~= t.drop_first());
        }
        return Parsed::Passthrough(text);
    }
    // the command name is the first token
    let mut e: usize = a;
    while e < b && !is_ws_char(line[e])
        invariant
            a <= e <= b <= line@.len(),
            forall|k: int| a <= k < e ==> !is_ws(line@[k]),
        decreases b - e,
    {
        e = e + 1;
    }
    proof {
        if e == b {
            lemma_token_end_at(t, (b - a) as int);
        } else {
            lemma_token_end_at(t, (e - a) as int);
        }
    }
    let name = copy_range(line, a, e);
    proof {
        assert(name@ =~= t.take(token_end(t) as int));
    }
    // the raw arguments begin after the whitespace run that follows the name
    let mut g: usize = e;
    while g < b && is_ws_char(line[g])
        invariant
            e <= g <= b <= line@.len(),
            forall|k: int| e <= k < g ==> is_ws(line@[k]),
        decreases b - g,
    {
        g = g + 1;
    }
    let ghost raw = trim_front(t.skip(token_end(t) as int));
    proof {
        lemma_trim_front_skip(t.skip(token_end(t) as int), g - e);
        assert(raw =~= line@.subrange(g as int, b as int));
    }
    let raw_args = copy_range(line, g, b);
    let tokens = split_tokens(line, g, b);
    proof {
        assert(tokens.deep_view() =~~= tokens_of(raw));
    }
    Parsed::Command { name, raw_args, tokens }
}

/// The tokens of `s[from..to]`, where `s[from]` is not whitespace (or the
/// range is empty) and the range ends without trailing whitespace.
fn split_tokens(s: &[char], from: usize, to: usize) -> (r: Vec<Vec<char>>)
    requires
        from <= to <= s@.len(),
    ensures
        r.deep_view() == tokens_of(s@.subrange(from as int, to as int)),
{
    let ghost u = s@.subrange(from as int, to as int);
    let mut out: Vec<Vec<char>> = Vec::new();
    proof {
        assert(u.skip(0) =~= u);
        assert(out.deep_view() + tokens_of(u) =~~= tokens_of(u));
    }
    let mut i: usize = from;
    while i < to
        invariant
            from <= i <= to <= s@.len(),
            u == s@.subrange(from as int, to as int),
            out.deep_view() + tokens_of(u.skip(i - from)) =~~= tokens_of(u),
        decreases to - i,
    {
        if is_ws_char(s[i]) {
            proof {
                assert(u.skip(i - from)[0] == s@[i as int]);
                assert(u.skip(i - from).drop_first() =~= u.skip(i + 1 - from));
            }
            i = i + 1;
        } else {
            let mut e: usize = i;
            while e < to && !is_ws_char(s[e])
                invariant
                    i <= e <= to <= s@.len(),
                    forall|k: int| i <= k < e ==> !is_ws(s@[k]),
                decreases to - e,
            {
                e = e + 1;
            }
            let tok = copy_range(s, i, e);
            proof {
                let rest = u.skip(i - from);
                assert(forall|k: int| 0 <= k < rest.len() ==> rest[k] == s@[i + k]);
                lemma_token_end_at(rest, e - i);
                assert(rest.take((e - i) as int) =~= s@.subrange(i as int, e as int));
                assert(rest.skip((e - i) as int) =~= u.skip(e - from));
                assert(tokens_of(rest) == seq![tok@] + tokens_of(u.skip(e - from)));
            }
            let ghost prev = out.deep_view();
            out.push(tok);
            proof {
                assert(out.deep_view() =~~= prev + seq![tok@]);
                assert(out.deep_view() + tokens_of(u.skip(e - from)) =~~= tokens_of(u));
            }
            i = e;
        }
    }
    proof {
        assert(u.skip(to - from) =~= Seq::<char>::empty());
        assert(out.deep_view() =~~= out.deep_view() + tokens_of(u.skip(to - from)));
    }
    out
}

} // verus!
