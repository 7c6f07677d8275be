//! Fixed-point numbers: the engine's model for the protocol's numeric tokens.
//!
//! Every numeric argument on the wire is a decimal literal.  The engine holds
//! such a value as a signed count of thousandths, so all interpreter and
//! anchor arithmetic is exact integer arithmetic.  A token parses when it is
//! an optional sign followed by decimal digits with at most one point and at
//! least one digit; fraction digits beyond the third are ignored.

use vstd::prelude::*;

verus! {

/// One whole unit equals this many raw steps.
pub const SCALE: i64 = 1000;

/// The largest magnitude (in raw thousandths) a parsed token may take.
/// Larger values are treated like unparsable tokens and fall back to the
/// command's documented default.
pub const RAW_MAX: i64 = 1_000_000_000_000_000;

/// A number in thousandths of a unit.
#[derive(Clone, Copy, PartialEq, Eq, Structural, Debug)]
pub struct Fixed {
    pub raw: i64,
}

impl Fixed {
    /// The number `n` (whole units).
    pub fn from_units(n: i32) -> (r: Fixed)
        ensures
            r.raw == n * 1000,
    {
        Fixed { raw: (n as i64) * SCALE }
    }
}

/// Truncating halving, the rounding the anchor resolver uses: the result is
/// half the argument rounded toward zero.
pub open spec fn spec_half(v: int) -> int {
    if v >= 0 {
        v / 2
    } else {
        -((-v) / 2)
    }
}

pub fn half(v: i64) -> (r: i64)
    requires
        v > i64::MIN,
    ensures
        r == spec_half(v as int),
{
    if v >= 0 {
        v / 2
    } else {
        -((-v) / 2)
    }
}

pub open spec fn is_digit(c: char) -> bool {
    48 <= c as u32 <= 57
}

pub open spec fn digit_val(c: char) -> int {
    c as u32 - 48
}

pub open spec fn all_digits(s: Seq<char>) -> bool {
    forall|i: int| 0 <= i < s.len() ==> is_digit(#[trigger] s[i])
}

/// The value of a string of decimal digits.
pub open spec fn digits_val(s: Seq<char>) -> int
    decreases s.len(),
{
    if s.len() == 0 {
        0
    } else {
        digits_val(s.drop_last()) * 10 + digit_val(s.last())
    }
}

/// The value, in thousandths, of the digits after the point: the first three
/// digits weigh 100, 10 and 1; any further digits are ignored.
pub open spec fn frac_milli(s: Seq<char>) -> int {
    (if s.len() >= 1 {
        100 * digit_val(s[0])
    } else {
        0
    }) + (if s.len() >= 2 {
        10 * digit_val(s[1])
    } else {
        0
    }) + (if s.len() >= 3 {
        digit_val(s[2])
    } else {
        0
    })
}

/// The position of the first point in `s`, if any.
pub open spec fn dot_pos(s: Seq<char>) -> Option<int>
    decreases s.len(),
{
    if s.len() == 0 {
        None
    } else if s[0] == '.' {
        Some(0int)
    } else {
        match dot_pos(s.drop_first()) {
            None => None,
            Some(i) => Some(i + 1),
        }
    }
}

/// The value, in thousandths, of an unsigned decimal literal, or `None` when
/// `s` is not one.
pub open spec fn parse_unsigned(s: Seq<char>) -> Option<int> {
    match dot_pos(s) {
        None => if s.len() > 0 && all_digits(s) {
            Some(digits_val(s) * 1000)
        } else {
            None
        },
        Some(i) => {
            let ip = s.take(i);
            let fp = s.skip(i + 1);
            if all_digits(ip) && all_digits(fp) && ip.len() + fp.len() > 0 {
                Some(digits_val(ip) * 1000 + frac_milli(fp))
            } else {
                None
            }
        },
    }
}

/// The value, in thousandths, of a signed decimal literal, or `None` when `s`
/// is not one.
pub open spec fn parse_fixed_spec(s: Seq<char>) -> Option<int> {
    if s.len() > 0 && s[0] == '-' {
        match parse_unsigned(s.drop_first()) {
            None => None,
            Some(v) => Some(-v),
        }
    } else if s.len() > 0 && s[0] == '+' {
        parse_unsigned(s.drop_first())
    } else {
        parse_unsigned(s)
    }
}

/// The fixed-point number a token names: the literal's value when it has
/// one and it fits, and `None` otherwise.
pub open spec fn token_fixed(s: Seq<char>) -> Option<Fixed> {
    match parse_fixed_spec(s) {
        None => None,
        Some(v) => if -RAW_MAX <= v <= RAW_MAX {
            Some(Fixed { raw: v as i64 })
        } else {
            None
        },
    }
}

/// The character for a digit value.
pub open spec fn digit_char(d: int) -> char {
    ((48 + d) as u8) as char
}

/// The decimal digits of `n`, most significant first.
pub open spec fn dec_digits(n: nat) -> Seq<char>
    decreases n,
{
    if n < 10 {
        seq![digit_char(n as int)]
    } else {
        dec_digits(n / 10).push(digit_char((n % 10) as int))
    }
}

/// How the engine writes a fixed-point value on the wire: minus sign for
/// negative values, the whole units, and the non-zero fraction digits after
/// a point — nothing when the fraction is zero.
pub open spec fn fmt_fixed(v: int) -> Seq<char> {
    if v < 0 {
        seq!['-'] + fmt_fixed_mag((-v) as nat)
    } else {
        fmt_fixed_mag(v as nat)
    }
}

/// The digits of a non-negative raw value `n` (in thousandths).
pub open spec fn fmt_fixed_mag(n: nat) -> Seq<char> {
    let q = n / 1000;
    let f = n % 1000;
    if f == 0 {
        dec_digits(q)
    } else if f % 100 == 0 {
        dec_digits(q) + seq!['.', digit_char(f as int / 100)]
    } else if f % 10 == 0 {
        dec_digits(q) + seq!['.', digit_char(f as int / 100), digit_char((f as int / 10) % 10)]
    } else {
        dec_digits(q) + seq![
            '.',
            digit_char(f as int / 100),
            digit_char((f as int / 10) % 10),
            digit_char(f as int % 10),
        ]
    }
}

/// Appends the decimal digits of `n`.
pub fn push_dec(out: &mut Vec<char>, n: u64)
    ensures
        final(out)@ == old(out)@ + dec_digits(n as nat),
    decreases n,
{
    if n < 10 {
        out.push((48 + n as u8) as char);
    } else {
        push_dec(out, n / 10);
        out.push((48 + (n % 10) as u8) as char);
    }
}

/// Appends a fixed-point value as the engine writes it on the wire.
pub fn push_fixed(out: &mut Vec<char>, v: Fixed)
    ensures
        final(out)@ == old(out)@ + fmt_fixed(v.raw as int),
{
    let mag: u64 = if v.raw < 0 {
        out.push('-');
        (-(v.raw as i128)) as u64
    } else {
        v.raw as u64
    };
    let q: u64 = mag / 1000;
    let f: u64 = mag % 1000;
    push_dec(out, q);
    if f != 0 {
        out.push('.');
        out.push((48 + (f / 100) as u8) as char);
        if f % 100 != 0 {
            out.push((48 + ((f / 10) % 10) as u8) as char);
            if f % 10 != 0 {
                out.push((48 + (f % 10) as u8) as char);
            }
        }
    }
    proof {
        assert(out@ =~= old(out)@ + fmt_fixed(v.raw as int));
    }
}

proof fn lemma_dot_pos_none(s: Seq<char>)
    requires
        forall|k: int| 0 <= k < s.len() ==> s[k] != '.',
    ensures
        dot_pos(s) is None,
    decreases s.len(),
{
    if s.len() > 0 {
        lemma_dot_pos_none(s.drop_first());
    }
}

proof fn lemma_dot_pos_at(s: Seq<char>, i: int)
    requires
        0 <= i < s.len(),
        s[i] == '.',
        forall|k: int| 0 <= k < i ==> s[k] != '.',
    ensures
        dot_pos(s) == Some(i),
    decreases s.len(),
{
    if i > 0 {
        lemma_dot_pos_at(s.drop_first(), i - 1);
    }
}

/// A run of digits, scanned left to right; `CAP` bounds the accumulator so
/// that the caller can reject values beyond `RAW_MAX` exactly.
const CAP: i64 = 1_000_000_000_000;

/// Scans `s[from..to]` as decimal digits.  Returns `None` when some
/// character there is not a digit; `Some(v)` with the run's value when it is
/// at most `CAP`; and `Some(CAP + 1)` when the value exceeds `CAP`.
fn scan_digits(s: &[char], from: usize, to: usize) -> (r: Option<i64>)
    requires
        from <= to <= s@.len(),
    ensures
        match r {
            None => !all_digits(s@.subrange(from as int, to as int)),
            Some(v) => {
                &&& all_digits(s@.subrange(from as int, to as int))
                &&& 0 <= v <= CAP + 1
                &&& if v <= CAP {
                    digits_val(s@.subrange(from as int, to as int)) == v
                } else {
                    v == CAP + 1 && digits_val(s@.subrange(from as int, to as int)) > CAP
                }
            },
        },
{
    let mut acc: i64 = 0;
    let mut over: bool = false;
    let mut j: usize = from;
    while j < to
        invariant
            from <= j <= to <= s@.len(),
            0 <= acc <= CAP,
            all_digits(s@.subrange(from as int, j as int)),
            !over ==> digits_val(s@.subrange(from as int, j as int)) == acc,
            over ==> digits_val(s@.subrange(from as int, j as int)) > CAP,
        decreases to - j,
    {
        let c = s[j];
        if !(c as u32 >= 48 && c as u32 <= 57) {
            proof {
                assert(s@.subrange(from as int, to as int)[j - from] == s@[j as int]);
            }
            return None;
        }
        let d: i64 = (c as u32 - 48) as i64;
        proof {
            assert(s@.subrange(from as int, j + 1).drop_last() =~= s@.subrange(
                from as int,
                j as int,
            ));
            assert(s@.subrange(from as int, j + 1).last() == s@[j as int]);
            assert(forall|k: int|
                0 <= k < j + 1 - from ==> #[trigger] s@.subrange(from as int, j + 1)[k] == s@[from
                    + k]);
        }
        if over {
            proof {
                assert(digits_val(s@.subrange(from as int, j + 1)) == digits_val(
                    s@.subrange(from as int, j as int),
                ) * 10 + digit_val(s@[j as int]));
            }
        } else if acc > (CAP - d) / 10 {
            over = true;
        } else {
            acc = acc * 10 + d;
        }
        j = j + 1;
    }
    if over {
        Some(CAP + 1)
    } else {
        Some(acc)
    }
}

/// Parses one token as a fixed-point number.  Unparsable tokens and values
/// beyond `RAW_MAX` in magnitude give `None`.
#[verifier::rlimit(60)]
pub fn parse_fixed(s: &[char]) -> (r: Option<Fixed>)
    ensures
        r == token_fixed(s@),
{
    let n = s.len();
    let neg: bool = n > 0 && s[0] == '-';
    let start: usize = if n > 0 && (s[0] == '-' || s[0] == '+') {
        1
    } else {
        0
    };
    let ghost body = s@.skip(start as int);
    proof {
        assert(body =~= s@.subrange(start as int, n as int));
        if start == 0 {
            assert(body =~= s@);
        } else {
            assert(body =~= s@.drop_first());
        }
    }
    // find the first point, if any
    let mut j: usize = start;
    while j < n && s[j] != '.'
        invariant
            start <= j <= n == s@.len(),
            forall|k: int| start <= k < j ==> s@[k] != '.',
        decreases n - j,
    {
        j = j + 1;
    }
    let dot: usize = j;
    proof {
        assert(forall|k: int| 0 <= k < body.len() ==> body[k] == s@[start + k]);
        if dot == n {
            lemma_dot_pos_none(body);
        } else {
            lemma_dot_pos_at(body, dot - start);
        }
    }
    let units: i64;
    let frac: i64;
    if dot == n {
        // no point: the whole body is one digit run
        if n == start {
            return None;
        }
        match scan_digits(s, start, n) {
            None => {
                proof {
                    assert(s@.subrange(start as int, n as int) =~= body);
                }
                return None;
            },
            Some(v) => {
                proof {
                    assert(s@.subrange(start as int, n as int) =~= body);
                }
                units = v;
                frac = 0;
            },
        }
    } else {
        let ghost ip = body.take(dot - start);
        let ghost fp = body.skip(dot - start + 1);
        proof {
            assert(ip =~= s@.subrange(start as int, dot as int));
            assert(fp =~= s@.subrange(dot + 1, n as int));
        }
        if start + 1 == n {
            // the body is just the point
            return None;
        }
        let u = match scan_digits(s, start, dot) {
            None => {
                return None;
            },
            Some(v) => v,
        };
        match scan_digits(s, dot + 1, n) {
            None => {
                return None;
            },
            Some(_) => {},
        }
        units = u;
        proof {
            let fpl = fp.len() as int;
            if fpl >= 1 {
                assert(fp[0] == s@[dot + 1]);
                assert(is_digit(fp[0]));
            }
            if fpl >= 2 {
                assert(fp[1] == s@[dot + 2]);
                assert(is_digit(fp[1]));
            }
            if fpl >= 3 {
                assert(fp[2] == s@[dot + 3]);
                assert(is_digit(fp[2]));
            }
        }
        // the first three fraction digits, weighted
        let f0: i64 = if n - dot >= 2 {
            100 * (s[dot + 1] as u32 - 48) as i64
        } else {
            0
        };
        let f1: i64 = if n - dot >= 3 {
            10 * (s[dot + 2] as u32 - 48) as i64
        } else {
            0
        };
        let f2: i64 = if n - dot >= 4 {
            (s[dot + 3] as u32 - 48) as i64
        } else {
            0
        };
        frac = f0 + f1 + f2;
    }
    if units > CAP {
        return None;
    }
    let v: i64 = units * 1000 + frac;
    if v > RAW_MAX {
        return None;
    }
    if neg {
        Some(Fixed { raw: -v })
    } else {
        Some(Fixed { raw: v })
    }
}

} // verus!
