//! The per-target stream worker's own logic: turning the operator's tail
//! setting into a line count, and tagging each line read from a source with
//! the target it came from. Reading the lines themselves is I/O and lives
//! with the caller; everything a worker decides or builds is here.

use vstd::prelude::*;
use crate::models::{LogMessage, MsgView, TargetDescriptor};
use crate::text::chars_of;

verus! {

/// The code point of `c` is a decimal digit's.
pub open spec fn is_digit(c: char) -> bool {
    48 <= c as u32 <= 57
}

/// The numeric value of a digit character.
pub open spec fn digit_val(c: char) -> int {
    c as u32 - 48
}

/// Every character of `s` is a decimal digit.
pub open spec fn all_digits(s: Seq<char>) -> bool {
    forall|i: int| 0 <= i < s.len() ==> is_digit(s[i])
}

/// The value of a digit string, most significant digit first.
pub open spec fn digits_val(s: Seq<char>) -> int
    decreases s.len(),
{
    if s.len() == 0 {
        0
    } else {
        10 * digits_val(s.drop_last()) + digit_val(s.last())
    }
}

/// The digits of `s` with a single leading sign stripped.
pub open spec fn unsigned_part(s: Seq<char>) -> Seq<char> {
    if s.len() > 0 && (s[0] == '+' || s[0] == '-') {
        s.skip(1)
    } else {
        s
    }
}

/// The sign `s` denotes: -1 under a leading minus, else 1.
pub open spec fn sign_of(s: Seq<char>) -> int {
    if s.len() > 0 && s[0] == '-' {
        -1
    } else {
        1
    }
}

/// What parsing `s` as a 64-bit signed decimal yields: an optional sign,
/// then at least one digit, and a value in range; anything else fails.
pub open spec fn parsed_i64(s: Seq<char>) -> Option<i64> {
    let d = unsigned_part(s);
    let v = sign_of(s) * digits_val(d);
    if d.len() > 0 && all_digits(d) && i64::MIN <= v <= i64::MAX {
        Some(v as i64)
    } else {
        None
    }
}

/// The line count a tail setting asks for: `*` tails without a bound, a
/// decimal count is honoured, and anything else falls back to 50.
pub open spec fn tail_spec(s: Seq<char>) -> Option<i64> {
    if s == seq!['*'] {
        None
    } else {
        match parsed_i64(s) {
            Some(v) => Some(v),
            None => Some(50),
        }
    }
}

/// Value of the digit prefix grows or stays when another digit is read.
proof fn lemma_digits_val_step(s: Seq<char>, i: int)
    requires
        0 <= i < s.len(),
    ensures
        digits_val(s.take(i + 1)) == 10 * digits_val(s.take(i)) + digit_val(s[i]),
{
    assert(s.take(i + 1).drop_last() =~= s.take(i));
    assert(s.take(i + 1).last() == s[i]);
}

/// A digit string's value is never negative.
proof fn lemma_digits_val_nonneg(s: Seq<char>)
    requires
        all_digits(s),
    ensures
        digits_val(s) >= 0,
    decreases s.len(),
{
    if s.len() > 0 {
        assert(all_digits(s.drop_last()));
        lemma_digits_val_nonneg(s.drop_last());
    }
}

/// The magnitude of an i64 never exceeds 2^63.
const I64_MAG_CAP: u128 = 9223372036854775808;

/// The unsigned digits of `cs` starting at `start`, read into an exact
/// magnitude where it fits, or reported as too large for any i64.
fn read_magnitude(cs: &Vec<char>, start: usize) -> (r: Option<u128>)
    requires
        start <= cs@.len(),
    ensures
        all_digits(cs@.skip(start as int)) ==> match r {
            Some(mag) => mag == digits_val(cs@.skip(start as int)) && mag <= I64_MAG_CAP,
            None => digits_val(cs@.skip(start as int)) > I64_MAG_CAP,
        },
        !all_digits(cs@.skip(start as int)) ==> r is None,
{
    let ghost d = cs@.skip(start as int);
    let mut mag: u128 = 0;
    let mut over: bool = false;
    let mut bad: bool = false;
    let n = cs.len();
    let mut i: usize = start;
    while i < n
        invariant
            start <= i <= n,
            n == cs@.len(),
            d == cs@.skip(start as int),
            mag <= I64_MAG_CAP,
            bad ==> !all_digits(d),
            !bad ==> all_digits(d.take(i - start)),
            !bad && !over ==> mag == digits_val(d.take(i - start)),
            !bad && over ==> digits_val(d.take(i - start)) > I64_MAG_CAP,
        decreases n - i,
    {
        let c = cs[i];
        let u = c as u32;
        proof {
            assert(d[i - start] == cs@[i as int]);
            lemma_digits_val_step(d, i - start);
        }
        if u < 48 || u > 57 {
            proof {
                assert(!is_digit(d[i - start]));
            }
            bad = true;
        } else if !over {
            let dv: u128 = (u - 48) as u128;
            proof {
                assert(dv == digit_val(d[i - start]));
            }
            if mag > (I64_MAG_CAP - dv) / 10 {
                proof {
                    assert(10 * mag + dv > I64_MAG_CAP) by (nonlinear_arith)
                        requires
                            mag > (I64_MAG_CAP - dv) / 10,
                            dv <= 9,
                            I64_MAG_CAP == 9223372036854775808,
                    ;
                }
                over = true;
            } else {
                proof {
                    assert(10 * mag + dv <= I64_MAG_CAP) by (nonlinear_arith)
                        requires
                            mag <= (I64_MAG_CAP - dv) / 10,
                            dv <= 9,
                            I64_MAG_CAP == 9223372036854775808,
                    ;
                }
                mag = mag * 10 + dv;
            }
        } else {
            proof {
                if !bad {
                    assert(digit_val(d[i - start]) >= 0);
                    assert(digits_val(d.take(i - start + 1)) > I64_MAG_CAP) by (nonlinear_arith)
                        requires
                            digits_val(d.take(i - start + 1)) == 10 * digits_val(
                                d.take(i - start),
                            ) + digit_val(d[i - start]),
                            digits_val(d.take(i - start)) > I64_MAG_CAP,
                            digit_val(d[i - start]) >= 0,
                    ;
                }
            }
        }
        i = i + 1;
    }
    proof {
        assert(d.take(n - start) =~= d);
    }
    if bad || over {
        None
    } else {
        Some(mag)
    }
}

/// Parse the operator's tail setting: `*` means unbounded, a decimal count
/// is honoured, and anything unreadable falls back to 50 lines.
pub fn parse_tail(s: &str) -> (r: Option<i64>)
    ensures
        r == tail_spec(s@),
{
    let cs = chars_of(s);
    if cs.len() == 1 && cs[0] == '*' {
        proof {
            assert(s@ =~= seq!['*']);
        }
        return None;
    }
    proof {
        assert(s@ != seq!['*']);
    }
    let (neg, start): (bool, usize) = if cs.len() > 0 && (cs[0] == '+' || cs[0] == '-') {
        (cs[0] == '-', 1)
    } else {
        (false, 0)
    };
    proof {
        assert(unsigned_part(s@) =~= s@.skip(start as int));
        assert(neg == (sign_of(s@) == -1));
    }
    if cs.len() == start {
        return Some(50);
    }
    match read_magnitude(&cs, start) {
        Some(mag) => {
            proof {
                if all_digits(s@.skip(start as int)) {
                    lemma_digits_val_nonneg(s@.skip(start as int));
                }
            }
            if neg {
                if mag == I64_MAG_CAP {
                    Some(i64::MIN)
                } else {
                    Some(-(mag as i64))
                }
            } else {
                if mag == I64_MAG_CAP {
                    Some(50)
                } else {
                    Some(mag as i64)
                }
            }
        },
        None => Some(50),
    }
}

/// One line read from a target's source, tagged with where it came from.
pub fn tag_line(target: &TargetDescriptor, line: String) -> (m: LogMessage)
    ensures
        m@.pod_name == target.pod_name@,
        m@.container_name == target.container_name@,
        m@.message == line@,
{
    LogMessage {
        pod_name: target.pod_name.clone(),
        container_name: target.container_name.clone(),
        message: line,
    }
}

/// Law: a worker whose source yields lines L1..Ln delivers exactly n
/// messages, in that order, each tagged with the worker's target, and then
/// nothing more.
pub fn worker_messages(target: &TargetDescriptor, lines: &Vec<String>) -> (r: Vec<LogMessage>)
    ensures
        r@.len() == lines@.len(),
        forall|i: int|
            0 <= i < r@.len() ==> r@[i]@ == (MsgView {
                pod_name: target.pod_name@,
                container_name: target.container_name@,
                message: lines@[i]@,
            }),
{
    let mut r: Vec<LogMessage> = Vec::new();
    let n = lines.len();
    for idx in 0..n
        invariant
            n == lines@.len(),
            r@.len() == idx,
            forall|i: int|
                0 <= i < r@.len() ==> r@[i]@ == (MsgView {
                    pod_name: target.pod_name@,
                    container_name: target.container_name@,
                    message: lines@[i]@,
                }),
    {
        let m = tag_line(target, lines[idx].clone());
        r.push(m);
    }
    r
}

} // verus!
