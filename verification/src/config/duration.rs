//! Durations written as a whole number followed by a unit, such as `30s` or `500ms`.
use vstd::prelude::*;

use crate::keymap::key::{all_digits, digit_of, digit_value, digits_value, lemma_digits_prefix};

verus! {

/// Milliseconds in one of the units a duration is written in.
pub open spec fn unit_millis(unit: Seq<char>) -> Option<nat> {
    if unit == seq!['m', 's'] {
        Some(1)
    } else if unit == seq!['s'] {
        Some(1000)
    } else if unit == seq!['m'] {
        Some(60000)
    } else if unit == seq!['h'] {
        Some(3600000)
    } else if unit == seq!['d'] {
        Some(86400000)
    } else {
        None
    }
}

/// The end of the run of decimal digits of `s` that starts at `i`.
pub open spec fn digit_run_end(s: Seq<char>, i: int) -> int
    decreases s.len() - i,
{
    if 0 <= i < s.len() && digit_value(s[i]) is Some {
        digit_run_end(s, i + 1)
    } else {
        i
    }
}

/// The number of milliseconds `s` denotes: leading digits, then a unit and nothing more.
pub open spec fn duration_millis(s: Seq<char>) -> Option<nat> {
    let k = digit_run_end(s, 0);
    if k == 0 {
        None
    } else {
        match unit_millis(s.skip(k)) {
            Some(u) => Some(digits_value(s.take(k)) * u),
            None => None,
        }
    }
}

/// The run of digits that starts at a digit run's position reaches its end.
proof fn lemma_digit_run(s: Seq<char>, i: int)
    requires
        0 <= i <= s.len(),
    ensures
        i <= digit_run_end(s, i) <= s.len(),
        forall|j: int| i <= j < digit_run_end(s, i) ==> (#[trigger] digit_value(s[j])) is Some,
        digit_run_end(s, i) < s.len() ==> digit_value(s[digit_run_end(s, i)]) is None,
    decreases s.len() - i,
{
    if i < s.len() && digit_value(s[i]) is Some {
        lemma_digit_run(s, i + 1);
    }
}

/// The milliseconds of the unit written at the end of `s`, from position `k` on.
fn unit_at(s: &str, k: usize) -> (r: Option<u64>)
    requires
        k <= s@.len(),
    ensures
        match unit_millis(s@.skip(k as int)) {
            Some(u) => r == Some(u as u64),
            None => r is None,
        },
{
    let n = s.unicode_len();
    let ghost unit = s@.skip(k as int);
    if n - k == 2 && s.get_char(k) == 'm' && s.get_char(k + 1) == 's' {
        assert(unit =~= seq!['m', 's']);
        assert(unit_millis(unit) == Some(1nat));
        Some(1)
    } else if n - k == 1 {
        let c = s.get_char(k);
        assert(unit =~= seq![c]);
        assert(unit[0] == c);
        assert(seq!['s'][0] == 's');
        assert(seq!['m'][0] == 'm');
        assert(seq!['h'][0] == 'h');
        assert(seq!['d'][0] == 'd');
        assert(seq!['m', 's'].len() == 2);
        if c == 's' {
            assert(unit_millis(unit) == Some(1000nat));
            Some(1000)
        } else if c == 'm' {
            assert(unit_millis(unit) == Some(60000nat));
            Some(60000)
        } else if c == 'h' {
            assert(unit_millis(unit) == Some(3600000nat));
            Some(3600000)
        } else if c == 'd' {
            assert(unit_millis(unit) == Some(86400000nat));
            Some(86400000)
        } else {
            assert(unit != seq!['m', 's']);
            assert(unit_millis(unit) is None);
            None
        }
    } else {
        proof {
            assert(seq!['m', 's'][0] == 'm');
            assert(seq!['m', 's'][1] == 's');
            assert(seq!['m', 's'].len() == 2);
            assert(seq!['s'].len() == 1);
            assert(seq!['m'].len() == 1);
            assert(seq!['h'].len() == 1);
            assert(seq!['d'].len() == 1);
            if n - k == 2 {
                assert(unit.len() == 2);
                assert(unit[0] == s@[k as int]);
                assert(unit[1] == s@[k + 1]);
            }
            assert(unit_millis(unit) is None);
        }
        None
    }
}

/// Parses a duration such as `30s`, `500ms`, `2m`, `1h` or `1d` into milliseconds:
/// `None` where `s` is not such a duration or the duration does not fit in a `u64`.
pub fn parse_duration_millis(s: &str) -> (r: Option<u64>)
    ensures
        match duration_millis(s@) {
            Some(v) => if v <= u64::MAX {
                r == Some(v as u64)
            } else {
                r is None
            },
            None => r is None,
        },
{
    let n = s.unicode_len();
    proof {
        lemma_digit_run(s@, 0);
    }
    let ghost k = digit_run_end(s@, 0);
    let mut value: u64 = 0;
    let mut i: usize = 0;
    while i < n
        invariant
            n == s@.len(),
            0 <= i <= k <= n,
            k == digit_run_end(s@, 0),
            forall|j: int| 0 <= j < k ==> (#[trigger] digit_value(s@[j])) is Some,
            k < n ==> digit_value(s@[k]) is None,
            value == digits_value(s@.take(i as int)),
        ensures
            i == k,
            value == digits_value(s@.take(i as int)),
        decreases n - i,
    {
        let c = s.get_char(i);
        match digit_of(c) {
            None => {
                assert(digit_value(s@[i as int]) is None);
                break;
            },
            Some(d) => {
                assert(s@.take(i + 1).drop_last() =~= s@.take(i as int));
                assert(s@.take(i + 1).last() == c);
                assert(digits_value(s@.take(i + 1)) == value * 10 + d);
                match value.checked_mul(10) {
                    None => {
                        proof {
                            lemma_too_long(s@, (i + 1) as int);
                        }
                        return None;
                    },
                    Some(t) => match t.checked_add(d as u64) {
                        None => {
                            proof {
                                lemma_too_long(s@, (i + 1) as int);
                            }
                            return None;
                        },
                        Some(v) => {
                            value = v;
                        },
                    },
                }
            },
        }
        i += 1;
    }
    if i == 0 {
        return None;
    }
    match unit_at(s, i) {
        None => None,
        Some(u) => value.checked_mul(u),
    }
}

/// A run of digits that is already worth more than a `u64` holds leaves no
/// duration that fits in one.
proof fn lemma_too_long(s: Seq<char>, i: int)
    requires
        0 <= i <= digit_run_end(s, 0) <= s.len(),
        forall|j: int| 0 <= j < digit_run_end(s, 0) ==> (#[trigger] digit_value(s[j])) is Some,
        digits_value(s.take(i)) > u64::MAX,
    ensures
        match duration_millis(s) {
            Some(v) => v > u64::MAX,
            None => true,
        },
{
    let k = digit_run_end(s, 0);
    lemma_digits_at_least(s, i, k);
    let dv = digits_value(s.take(k));
    if let Some(u) = unit_millis(s.skip(k)) {
        assert(u >= 1);
        assert(dv * u >= dv) by (nonlinear_arith)
            requires
                u >= 1,
        ;
    }
}

/// The digits up to `k` are worth at least those up to `i`.
proof fn lemma_digits_at_least(s: Seq<char>, i: int, k: int)
    requires
        0 <= i <= k <= s.len(),
        forall|j: int| 0 <= j < k ==> (#[trigger] digit_value(s[j])) is Some,
    ensures
        digits_value(s.take(k)) >= digits_value(s.take(i)),
{
    let t = s.take(k);
    assert(all_digits(t)) by {
        assert forall|j: int| 0 <= j < t.len() implies (#[trigger] digit_value(t[j])) is Some by {
            assert(t[j] == s[j]);
        }
    }
    lemma_digits_prefix(t, i);
    assert(t.take(i) =~= s.take(i));
}

} // verus!
