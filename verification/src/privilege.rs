//! Interpretation of the privilege probe: the output of `id -g` is trimmed,
//! read as an unsigned number, and compared against the root group id.

use vstd::prelude::*;
use crate::DaemonError;

verus! {

/// The characters the probe output may carry around the group id.
pub open spec fn is_ascii_whitespace(c: char) -> bool {
    c == ' ' || c == '\t' || c == '\n' || c == '\r' || c == '\u{c}'
}

/// `s` without its leading whitespace.
pub open spec fn trim_start_spec(s: Seq<char>) -> Seq<char>
    decreases s.len(),
{
    if s.len() > 0 && is_ascii_whitespace(s[0]) {
        trim_start_spec(s.drop_first())
    } else {
        s
    }
}

/// `s` without its trailing whitespace.
pub open spec fn trim_end_spec(s: Seq<char>) -> Seq<char>
    decreases s.len(),
{
    if s.len() > 0 && is_ascii_whitespace(s[s.len() - 1]) {
        trim_end_spec(s.drop_last())
    } else {
        s
    }
}

/// `s` without leading and trailing whitespace.
pub open spec fn trim_spec(s: Seq<char>) -> Seq<char> {
    trim_end_spec(trim_start_spec(s))
}

/// Whether `c` is an ASCII whitespace character, as the probe output frames
/// the group id with.
fn is_whitespace_char(c: char) -> (b: bool)
    ensures
        b == is_ascii_whitespace(c),
{
    c == ' ' || c == '\t' || c == '\n' || c == '\r' || c == '\u{c}'
}

/// `s` without leading and trailing ASCII whitespace.
pub fn trim_ascii(s: &str) -> (r: &str)
    ensures
        r@ == trim_spec(s@),
{
    let n: usize = s.unicode_len();
    let mut start: usize = 0;
    proof {
        assert(s@.skip(0) =~= s@);
    }
    while start < n && is_whitespace_char(s.get_char(start))
        invariant
            0 <= start <= n,
            n as nat == s@.len(),
            trim_start_spec(s@) == trim_start_spec(s@.skip(start as int)),
        decreases n - start,
    {
        proof {
            assert(s@.skip(start as int)[0] == s@[start as int]);
            assert(s@.skip(start as int).drop_first() =~= s@.skip(start as int + 1));
        }
        start = start + 1;
    }
    proof {
        if start < n {
            assert(s@.skip(start as int)[0] == s@[start as int]);
        }
        assert(trim_start_spec(s@.skip(start as int)) == s@.skip(start as int));
    }
    let mut end: usize = n;
    while end > start && is_whitespace_char(s.get_char(end - 1))
        invariant
            start <= end <= n,
            n as nat == s@.len(),
            trim_start_spec(s@) == s@.skip(start as int),
            trim_end_spec(s@.skip(start as int)) == trim_end_spec(
                s@.subrange(start as int, end as int),
            ),
        decreases end,
    {
        proof {
            let piece = s@.subrange(start as int, end as int);
            assert(piece[piece.len() - 1] == s@[end - 1]);
            assert(piece.drop_last() =~= s@.subrange(start as int, end as int - 1));
        }
        end = end - 1;
    }
    proof {
        let piece = s@.subrange(start as int, end as int);
        if end > start {
            assert(piece[piece.len() - 1] == s@[end - 1]);
        }
        assert(trim_end_spec(piece) == piece);
    }
    s.substring_char(start, end)
}

/// Whether `c` is a decimal digit.
pub open spec fn is_digit(c: char) -> bool {
    '0' as u32 <= c as u32 && c as u32 <= '9' as u32
}

/// The value of the decimal digit `c`.
pub open spec fn digit_val(c: char) -> nat
    recommends
        is_digit(c),
{
    (c as u32 - '0' as u32) as nat
}

/// The number the decimal digits `s` write, most significant first.
pub open spec fn digits_to_nat(s: Seq<char>) -> nat
    decreases s.len(),
{
    if s.len() == 0 {
        0
    } else {
        digits_to_nat(s.drop_last()) * 10 + digit_val(s.last())
    }
}

/// Whether every character of `s` is a decimal digit.
pub open spec fn all_digits(s: Seq<char>) -> bool {
    forall|i: int| 0 <= i < s.len() ==> is_digit(#[trigger] s[i])
}

/// The number that `s` writes in decimal, after an optional leading plus
/// sign: at least one digit, digits only, and a value that fits in 32 bits.
/// Anything else reads as nothing.
pub open spec fn parse_u32_spec(s: Seq<char>) -> Option<u32> {
    let body = if s.len() > 0 && s[0] == '+' {
        s.drop_first()
    } else {
        s
    };
    if body.len() >= 1 && all_digits(body) && digits_to_nat(body) <= u32::MAX {
        Some(digits_to_nat(body) as u32)
    } else {
        None
    }
}

/// A longer run of digits never writes a smaller number.
proof fn lemma_digits_monotonic(s: Seq<char>, k: int)
    requires
        0 <= k <= s.len(),
    ensures
        digits_to_nat(s.take(k)) <= digits_to_nat(s),
    decreases s.len() - k,
{
    if k < s.len() {
        lemma_digits_monotonic(s, k + 1);
        assert(s.take(k + 1).drop_last() =~= s.take(k));
        assert(digits_to_nat(s.take(k + 1)) == digits_to_nat(s.take(k)) * 10 + digit_val(
            s.take(k + 1).last(),
        ));
        assert(digits_to_nat(s.take(k)) <= digits_to_nat(s.take(k)) * 10);
    } else {
        assert(s.take(k) =~= s);
    }
}

/// Reads `s` as a decimal number with an optional leading plus sign,
/// rejecting anything that is not digits throughout or that overflows 32
/// bits.
pub fn parse_u32(s: &str) -> (r: Option<u32>)
    ensures
        r == parse_u32_spec(s@),
{
    let n: usize = s.unicode_len();
    let start: usize = if n > 0 && s.get_char(0) == '+' {
        1
    } else {
        0
    };
    let ghost body = if s@.len() > 0 && s@[0] == '+' {
        s@.drop_first()
    } else {
        s@
    };
    proof {
        assert(body =~= s@.skip(start as int));
    }
    if n == start {
        return None;
    }
    let mut value: u32 = 0;
    let mut i: usize = start;
    while i < n
        invariant
            start <= i <= n,
            n as nat == s@.len(),
            body == s@.skip(start as int),
            body == (if s@.len() > 0 && s@[0] == '+' {
                s@.drop_first()
            } else {
                s@
            }),
            start <= 1,
            value as nat == digits_to_nat(body.take(i - start)),
            all_digits(body.take(i - start)),
        decreases n - i,
    {
        let c = s.get_char(i);
        let code: u32 = c as u32;
        if code < 48 || code > 57 {
            proof {
                assert('0' as u32 == 48 && '9' as u32 == 57);
                assert(body[i - start] == s@[i as int]);
                assert(!is_digit(body[i - start]));
                assert(!all_digits(body));
            }
            return None;
        }
        let d: u32 = code - 48;
        let next = match value.checked_mul(10) {
            Some(v) => v.checked_add(d),
            None => None,
        };
        proof {
            assert(body.take(i - start + 1).drop_last() =~= body.take(i - start));
            assert(body.take(i - start + 1).last() == s@[i as int]);
            assert('0' as u32 == 48 && '9' as u32 == 57);
        }
        match next {
            Some(v) => {
                value = v;
            },
            None => {
                proof {
                    assert(value * 10 + d > u32::MAX);
                    assert(digits_to_nat(body.take(i - start + 1)) == value as nat * 10
                        + digit_val(s@[i as int]));
                    assert(digit_val(s@[i as int]) == d as nat);
                    lemma_digits_monotonic(body, i - start + 1);
                    assert(digits_to_nat(body) > u32::MAX);
                }
                return None;
            },
        }
        i = i + 1;
    }
    proof {
        assert(body.take(n - start) =~= body);
    }
    Some(value)
}

/// What the privilege probe decides. The probe is the `id -g` command: a
/// failed run or unreadable output means the host cannot be interrogated;
/// group id zero means root-equivalent rights; any other group id means the
/// caller must elevate.
pub open spec fn privilege_outcome(status_ok: bool, stdout: Option<Seq<char>>) -> Result<
    (),
    DaemonError,
> {
    if !status_ok {
        Err(DaemonError::UnsupportedSystem)
    } else {
        match stdout {
            Some(out) => match parse_u32_spec(trim_spec(out)) {
                Some(gid) => if gid == 0 {
                    Ok(())
                } else {
                    Err(DaemonError::RootPrivileges)
                },
                None => Err(DaemonError::UnsupportedSystem),
            },
            None => Err(DaemonError::UnsupportedSystem),
        }
    }
}

/// Decides the privilege check from the probe's exit outcome and captured
/// output (`None` standing for output that could not be decoded as text).
/// Success means root-equivalent rights were confirmed.
pub fn check_privilege_output(status_ok: bool, stdout: Option<&str>) -> (r: Result<
    (),
    DaemonError,
>)
    ensures
        r == privilege_outcome(
            status_ok,
            match stdout {
                Some(out) => Some(out@),
                None => None,
            },
        ),
{
    if !status_ok {
        return Err(DaemonError::UnsupportedSystem);
    }
    match stdout {
        Some(out) => {
            let t = trim_ascii(out);
            match parse_u32(t) {
                Some(gid) => if gid == 0 {
                    Ok(())
                } else {
                    Err(DaemonError::RootPrivileges)
                },
                None => Err(DaemonError::UnsupportedSystem),
            }
        },
        None => Err(DaemonError::UnsupportedSystem),
    }
}

} // verus!
