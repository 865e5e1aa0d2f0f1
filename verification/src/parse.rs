//! Decimal integer parsing for header values (webhook timestamps and
//! `Retry-After` hints), with the same acceptance rules as Rust's `from_str`
//! for `i64` and `u64`: an optional sign, then one or more ASCII digits, and
//! rejection on any other character or on overflow.

use vstd::prelude::*;

verus! {

pub open spec fn is_ascii_digit(c: char) -> bool {
    '0' <= c && c <= '9'
}

pub open spec fn digit_value(c: char) -> int {
    c as int - '0' as int
}

pub open spec fn all_digits(s: Seq<char>) -> bool {
    forall|i: int| 0 <= i < s.len() ==> is_ascii_digit(s[i])
}

/// The value of a non-empty digit string, most significant digit first.
pub open spec fn digits_value(s: Seq<char>) -> int
    decreases s.len(),
{
    if s.len() == 0 {
        0
    } else {
        digits_value(s.drop_last()) * 10 + digit_value(s.last())
    }
}

/// The mathematical value of `s` read as an optionally signed decimal
/// number, or `None` when `s` is not one: empty, a bare sign, or any
/// non-digit character after the optional sign.
pub open spec fn spec_parse_decimal(s: Seq<char>) -> Option<int> {
    if s.len() > 0 && s[0] == '-' {
        match spec_parse_digits(s.skip(1)) {
            Some(v) => Some(-v),
            None => None,
        }
    } else if s.len() > 0 && s[0] == '+' {
        spec_parse_digits(s.skip(1))
    } else {
        spec_parse_digits(s)
    }
}

pub open spec fn spec_parse_digits(s: Seq<char>) -> Option<int> {
    if s.len() > 0 && all_digits(s) {
        Some(digits_value(s))
    } else {
        None
    }
}

/// What `str::parse::<i64>` accepts: a signed decimal within `i64` range.
pub open spec fn spec_parse_i64(s: Seq<char>) -> Option<int> {
    match spec_parse_decimal(s) {
        Some(v) => if i64::MIN <= v <= i64::MAX {
            Some(v)
        } else {
            None
        },
        None => None,
    }
}

/// What `str::parse::<u64>` accepts: an unsigned decimal (a leading `+` is
/// allowed, a `-` is not) within `u64` range.
pub open spec fn spec_parse_u64(s: Seq<char>) -> Option<int> {
    if s.len() > 0 && s[0] == '-' {
        None
    } else {
        match spec_parse_decimal(s) {
            Some(v) => if v <= u64::MAX {
                Some(v)
            } else {
                None
            },
            None => None,
        }
    }
}

proof fn lemma_digits_value_nonneg(s: Seq<char>)
    requires
        all_digits(s),
    ensures
        digits_value(s) >= 0,
    decreases s.len(),
{
    if s.len() > 0 {
        assert(all_digits(s.drop_last()));
        lemma_digits_value_nonneg(s.drop_last());
    }
}

/// Extending a digit string never shrinks its value.
proof fn lemma_digits_value_prefix(s: Seq<char>, i: int)
    requires
        all_digits(s),
        0 <= i <= s.len(),
    ensures
        digits_value(s) >= digits_value(s.subrange(0, i)),
    decreases s.len() - i,
{
    if i < s.len() {
        let t = s.subrange(0, i + 1);
        assert(t.drop_last() =~= s.subrange(0, i));
        assert(all_digits(t.drop_last()));
        lemma_digits_value_nonneg(t.drop_last());
        lemma_digits_value_prefix(s, i + 1);
    } else {
        assert(s.subrange(0, i) =~= s);
    }
}

/// How the signed-decimal reading of `s` splits into an optional sign and a
/// digit body starting at `start`.
proof fn lemma_decimal_of_body(s: Seq<char>, neg: bool, start: int)
    requires
        0 <= start <= 1,
        start < s.len(),
        neg ==> start == 1 && s[0] == '-',
        !neg && start == 1 ==> s[0] == '+',
        start == 0 ==> s[0] != '-' && s[0] != '+',
    ensures
        spec_parse_decimal(s) == (match spec_parse_digits(s.skip(start)) {
            Some(v) => Some(if neg { -v } else { v }),
            None => None::<int>,
        }),
{
    if start == 0 {
        assert(s.skip(0) =~= s);
    }
}

/// Parses `s` as a signed 64-bit decimal, accepting exactly the strings that
/// `spec_parse_i64` gives a value.
pub fn parse_i64(s: &str) -> (r: Option<i64>)
    ensures
        match r {
            Some(v) => spec_parse_i64(s@) == Some(v as int),
            None => spec_parse_i64(s@) is None,
        },
{
    let n = s.unicode_len();
    if n == 0 {
        return None;
    }
    let first = s.get_char(0);
    let neg: bool = first == '-';
    let start: usize = if first == '-' || first == '+' {
        1
    } else {
        0
    };
    if start >= n {
        return None;
    }
    let ghost body = s@.skip(start as int);
    let mut acc: i128 = 0;
    let mut i: usize = start;
    while i < n
        invariant
            n == s@.len(),
            start <= i <= n,
            start <= 1,
            n > start,
            neg ==> start == 1 && s@[0] == '-',
            !neg && start == 1 ==> s@[0] == '+',
            start == 0 ==> s@[0] != '-' && s@[0] != '+',
            body == s@.skip(start as int),
            all_digits(s@.subrange(start as int, i as int)),
            acc == if neg {
                -digits_value(s@.subrange(start as int, i as int))
            } else {
                digits_value(s@.subrange(start as int, i as int))
            },
            i64::MIN <= acc <= i64::MAX,
        decreases n - i,
    {
        let c = s.get_char(i);
        let cu = c as u32;
        if cu < ('0' as u32) || cu > ('9' as u32) {
            assert(!is_ascii_digit(s@[i as int]));
            assert(spec_parse_digits(body) is None) by {
                assert(body[i - start] == s@[i as int]);
            }
            return None;
        }
        let d: i128 = (cu - ('0' as u32)) as i128;
        let ghost prev = s@.subrange(start as int, i as int);
        let ghost cur = s@.subrange(start as int, i + 1);
        proof {
            assert(cur.drop_last() =~= prev);
            assert(cur.last() == s@[i as int]);
        }
        acc = if neg {
            acc * 10 - d
        } else {
            acc * 10 + d
        };
        i = i + 1;
        if acc < i64::MIN as i128 || acc > i64::MAX as i128 {
            proof {
                let done = s@.subrange(start as int, i as int);
                assert(done == cur);
                assert(acc == if neg { -digits_value(done) } else { digits_value(done) });
                assert(all_digits(done)) by {
                    assert(forall|j: int| 0 <= j < done.len() - 1 ==> done[j] == prev[j]);
                }
                lemma_digits_value_nonneg(done);
                if all_digits(body) {
                    assert(done =~= body.subrange(0, i - start));
                    lemma_digits_value_prefix(body, i - start);
                    lemma_digits_value_nonneg(body);
                    assert(digits_value(body) >= digits_value(done));
                    assert(spec_parse_digits(body) == Some(digits_value(body)));
                } else {
                    assert(spec_parse_digits(body) is None);
                }
                lemma_decimal_of_body(s@, neg, start as int);
            }
            return None;
        }
    }
    proof {
        assert(s@.subrange(start as int, n as int) =~= body);
        assert(all_digits(body));
        assert(body.len() > 0);
        lemma_decimal_of_body(s@, neg, start as int);
    }
    Some(acc as i64)
}

/// Parses `s` as an unsigned 64-bit decimal, accepting exactly the strings
/// that `spec_parse_u64` gives a value.
pub fn parse_u64(s: &str) -> (r: Option<u64>)
    ensures
        match r {
            Some(v) => spec_parse_u64(s@) == Some(v as int),
            None => spec_parse_u64(s@) is None,
        },
{
    let n = s.unicode_len();
    if n == 0 {
        return None;
    }
    let first = s.get_char(0);
    if first == '-' {
        return None;
    }
    let start: usize = if first == '+' {
        1
    } else {
        0
    };
    if start >= n {
        return None;
    }
    let ghost body = s@.skip(start as int);
    let mut acc: u128 = 0;
    let mut i: usize = start;
    while i < n
        invariant
            n == s@.len(),
            start <= i <= n,
            start <= 1,
            n > start,
            s@[0] != '-',
            start == 1 ==> s@[0] == '+',
            start == 0 ==> s@[0] != '+',
            body == s@.skip(start as int),
            all_digits(s@.subrange(start as int, i as int)),
            acc == digits_value(s@.subrange(start as int, i as int)),
            acc <= u64::MAX,
        decreases n - i,
    {
        let c = s.get_char(i);
        let cu = c as u32;
        if cu < ('0' as u32) || cu > ('9' as u32) {
            assert(!is_ascii_digit(s@[i as int]));
            assert(spec_parse_digits(body) is None) by {
                assert(body[i - start] == s@[i as int]);
            }
            return None;
        }
        let d: u128 = (cu - ('0' as u32)) as u128;
        let ghost prev = s@.subrange(start as int, i as int);
        let ghost cur = s@.subrange(start as int, i + 1);
        proof {
            assert(cur.drop_last() =~= prev);
            assert(cur.last() == s@[i as int]);
        }
        acc = acc * 10 + d;
        i = i + 1;
        if acc > u64::MAX as u128 {
            proof {
                let done = s@.subrange(start as int, i as int);
                assert(done == cur);
                assert(acc == digits_value(done));
                if all_digits(body) {
                    assert(done =~= body.subrange(0, i - start));
                    lemma_digits_value_prefix(body, i - start);
                    lemma_digits_value_nonneg(body);
                    assert(digits_value(body) >= digits_value(done));
                    assert(spec_parse_digits(body) == Some(digits_value(body)));
                } else {
                    assert(spec_parse_digits(body) is None);
                }
                lemma_decimal_of_body(s@, false, start as int);
            }
            return None;
        }
    }
    proof {
        assert(s@.subrange(start as int, n as int) =~= body);
        assert(all_digits(body));
        assert(body.len() > 0);
        lemma_decimal_of_body(s@, false, start as int);
    }
    Some(acc as u64)
}

} // verus!
