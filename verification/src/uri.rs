//! Extraction of one query parameter's value from a request path, and the
//! permissive reading of numeric values.
//!
//! The value of `param` in a URI such as `/update?duration=300&init_time=60`
//! is the text between the first occurrence of the parameter name plus one
//! separator character and the next `&` (or the end of the URI). The search
//! does not restrict itself to the query string, so a parameter name that
//! also occurs in the route path is found there first.
//!
//! Numeric values are read parse-or-default: malformed input becomes zero
//! rather than an error. The accepted forms are those of the standard
//! integer parsers — an optional sign followed by decimal digits, within
//! the type's range — so anything else, including overflow, yields zero.

use vstd::prelude::*;
use vstd::string::*;

verus! {

/// The first position at or after `i` where `param` occurs in `uri`, or -1
/// when it occurs nowhere at or after `i`.
pub open spec fn spec_find_at(uri: Seq<char>, param: Seq<char>, i: nat) -> int
    decreases uri.len() + 1 - i,
{
    if i + param.len() > uri.len() {
        -1
    } else if uri.subrange(i as int, i as int + param.len() as int) == param {
        i as int
    } else {
        spec_find_at(uri, param, i + 1)
    }
}

/// The position of the first `&` at or after `start`, or the end of `uri`.
pub open spec fn spec_value_end(uri: Seq<char>, start: nat) -> int
    decreases uri.len() + 1 - start,
{
    if start >= uri.len() {
        uri.len() as int
    } else if uri[start as int] == '&' {
        start as int
    } else {
        spec_value_end(uri, start + 1)
    }
}

/// Where `param`'s value begins in `uri`: one character (the `=`) past the
/// first occurrence of the parameter name.
pub open spec fn spec_value_start(uri: Seq<char>, param: Seq<char>) -> int {
    spec_find_at(uri, param, 0) + param.len() + 1
}

/// `uri` carries a value for `param`: the name occurs, and at least the
/// separator character follows it.
pub open spec fn spec_has_param(uri: Seq<char>, param: Seq<char>) -> bool {
    spec_find_at(uri, param, 0) >= 0 && spec_value_start(uri, param) <= uri.len()
}

proof fn lemma_find_at_lower_bound(uri: Seq<char>, param: Seq<char>, i: nat)
    requires
        spec_find_at(uri, param, i) >= 0,
    ensures
        spec_find_at(uri, param, i) >= i,
        spec_find_at(uri, param, i) + param.len() <= uri.len(),
    decreases uri.len() + 1 - i,
{
    if i + param.len() > uri.len() {
    } else if uri.subrange(i as int, i as int + param.len() as int) == param {
    } else {
        lemma_find_at_lower_bound(uri, param, i + 1);
    }
}

fn match_at(uri: &str, param: &str, i: usize) -> (r: bool)
    requires
        i + param@.len() <= uri@.len(),
    ensures
        r == (uri@.subrange(i as int, i as int + param@.len() as int) == param@),
{
    let n = uri.unicode_len();
    let m = param.unicode_len();
    let mut j: usize = 0;
    while j < m
        invariant
            j <= m,
            n == uri@.len(),
            m == param@.len(),
            i + m <= n,
            forall|k: int| 0 <= k < j ==> uri@[i + k] == param@[k],
        decreases m - j,
    {
        if uri.get_char(i + j) != param.get_char(j) {
            proof {
                assert(uri@.subrange(i as int, i as int + param@.len() as int)[j as int] == uri@[i + j]);
            }
            return false;
        }
        j = j + 1;
    }
    proof {
        assert(uri@.subrange(i as int, i as int + param@.len() as int) =~= param@);
    }
    true
}

/// The value of `param` in `uri`: the characters between the first
/// occurrence of the name plus one separator and the next `&` or the end.
///
/// A URI that does not carry the parameter is outside this function's
/// domain; callers test for it first (the surrounding request layer treats
/// such a request as malformed).
pub fn parse_http_uri<'a>(uri: &'a str, param: &str) -> (value: &'a str)
    requires
        spec_has_param(uri@, param@),
    ensures
        value@ == uri@.subrange(
            spec_value_start(uri@, param@),
            spec_value_end(uri@, spec_value_start(uri@, param@) as nat),
        ),
{
    let n = uri.unicode_len();
    let m = param.unicode_len();
    proof {
        lemma_find_at_lower_bound(uri@, param@, 0);
    }
    let mut i: usize = 0;
    loop
        invariant
            n == uri@.len(),
            m == param@.len(),
            spec_has_param(uri@, param@),
            i <= spec_find_at(uri@, param@, 0),
            spec_find_at(uri@, param@, i as nat) == spec_find_at(uri@, param@, 0),
        ensures
            i + m <= n,
            i as int == spec_find_at(uri@, param@, 0),
        decreases spec_find_at(uri@, param@, 0) - i,
    {
        proof {
            lemma_find_at_lower_bound(uri@, param@, i as nat);
        }
        if match_at(uri, param, i) {
            proof {
                assert(spec_find_at(uri@, param@, i as nat) == i);
            }
            break ;
        }
        proof {
            assert(spec_find_at(uri@, param@, i as nat) == spec_find_at(
                uri@,
                param@,
                (i + 1) as nat,
            ));
            lemma_find_at_lower_bound(uri@, param@, (i + 1) as nat);
        }
        i = i + 1;
    }
    let start = i + m + 1;
    let mut e = start;
    loop
        invariant
            n == uri@.len(),
            start <= e <= n,
            spec_value_end(uri@, start as nat) == spec_value_end(uri@, e as nat),
        ensures
            start <= e <= n,
            spec_value_end(uri@, start as nat) == e,
        decreases n - e,
    {
        if e == n {
            proof {
                assert(spec_value_end(uri@, e as nat) == e);
            }
            break ;
        }
        if uri.get_char(e) == '&' {
            proof {
                assert(spec_value_end(uri@, e as nat) == e);
            }
            break ;
        }
        proof {
            assert(spec_value_end(uri@, e as nat) == spec_value_end(uri@, (e + 1) as nat));
        }
        e = e + 1;
    }
    uri.substring_char(start, e)
}

/// `c` is a decimal digit.
pub open spec fn is_digit_char(c: char) -> bool {
    48 <= c as int <= 57
}

/// The numeric value of the digit `c`.
pub open spec fn digit_of(c: char) -> int {
    c as int - 48
}

pub open spec fn all_digits(s: Seq<char>) -> bool {
    forall|i: int| 0 <= i < s.len() ==> is_digit_char(s[i])
}

/// The number the digit string `s` denotes in base ten.
pub open spec fn digits_value(s: Seq<char>) -> int
    decreases s.len(),
{
    if s.len() == 0 {
        0
    } else {
        digits_value(s.drop_last()) * 10 + digit_of(s.last())
    }
}

/// What an unsigned 32-bit parse-or-default reads from `s`: the denoted
/// number when `s` is an optional `+` followed by digits and the number
/// fits, zero otherwise.
pub open spec fn spec_parse_u32_or_zero(s: Seq<char>) -> u32 {
    let digits = if s.len() > 0 && s[0] == '+' {
        s.drop_first()
    } else {
        s
    };
    if digits.len() > 0 && all_digits(digits) && digits_value(digits) <= u32::MAX {
        digits_value(digits) as u32
    } else {
        0
    }
}

/// What a signed 64-bit parse-or-default reads from `s`: the denoted
/// number when `s` is an optional sign followed by digits and the number
/// fits, zero otherwise.
pub open spec fn spec_parse_i64_or_zero(s: Seq<char>) -> i64 {
    if s.len() > 0 && s[0] == '-' {
        let digits = s.drop_first();
        if digits.len() > 0 && all_digits(digits) && -digits_value(digits) >= i64::MIN {
            (-digits_value(digits)) as i64
        } else {
            0
        }
    } else {
        let digits = if s.len() > 0 && s[0] == '+' {
            s.drop_first()
        } else {
            s
        };
        if digits.len() > 0 && all_digits(digits) && digits_value(digits) <= i64::MAX {
            digits_value(digits) as i64
        } else {
            0
        }
    }
}

proof fn lemma_digits_value_nonneg(s: Seq<char>)
    requires
        all_digits(s),
    ensures
        digits_value(s) >= 0,
    decreases s.len(),
{
    if s.len() > 0 {
        assert forall|i: int| 0 <= i < s.drop_last().len() implies is_digit_char(
            s.drop_last()[i],
        ) by {
            assert(s.drop_last()[i] == s[i]);
        }
        lemma_digits_value_nonneg(s.drop_last());
    }
}

proof fn lemma_digits_value_prefix_le(s: Seq<char>, j: int)
    requires
        all_digits(s),
        0 <= j <= s.len(),
    ensures
        digits_value(s.subrange(0, j)) <= digits_value(s),
    decreases s.len() - j,
{
    if j == s.len() {
        assert(s.subrange(0, j) =~= s);
    } else {
        let shorter = s.subrange(0, j);
        let longer = s.subrange(0, j + 1);
        assert(longer.drop_last() =~= shorter);
        assert(longer.last() == s[j]);
        assert forall|i: int| 0 <= i < shorter.len() implies is_digit_char(shorter[i]) by {
            assert(shorter[i] == s[i]);
        }
        lemma_digits_value_nonneg(shorter);
        assert(digits_value(longer) == digits_value(shorter) * 10 + digit_of(s[j]));
        lemma_digits_value_prefix_le(s, j + 1);
    }
}

/// Read an unsigned 32-bit number permissively: malformed or overflowing
/// input yields zero, never an error.
pub fn parse_u32_or_zero(s: &str) -> (r: u32)
    ensures
        r == spec_parse_u32_or_zero(s@),
{
    let n = s.unicode_len();
    let mut i: usize = 0;
    if n > 0 && s.get_char(0) == '+' {
        i = 1;
    }
    let ghost start = i as int;
    let ghost digits = s@.subrange(start, n as int);
    proof {
        assert(digits =~= (if s@.len() > 0 && s@[0] == '+' {
            s@.drop_first()
        } else {
            s@
        }));
    }
    if i >= n {
        return 0;
    }
    let mut acc: u64 = 0;
    while i < n
        invariant
            n == s@.len(),
            0 <= start <= i as int <= n as int,
            start == (if s@.len() > 0 && s@[0] == '+' {
                1int
            } else {
                0int
            }),
            digits == s@.subrange(start, n as int),
            digits == (if s@.len() > 0 && s@[0] == '+' {
                s@.drop_first()
            } else {
                s@
            }),
            digits.len() > 0,
            all_digits(s@.subrange(start, i as int)),
            acc == digits_value(s@.subrange(start, i as int)),
            acc <= u32::MAX,
        decreases n - i,
    {
        let code = s.get_char(i) as u32;
        if code < 48 || code > 57 {
            proof {
                assert(digits[i as int - start] == s@[i as int]);
                assert(!all_digits(digits));
            }
            return 0;
        }
        let ghost prefix = s@.subrange(start, i as int);
        let ghost extended = s@.subrange(start, i as int + 1);
        proof {
            assert(extended.drop_last() =~= prefix);
            assert(extended.last() == s@[i as int]);
            assert forall|k: int| 0 <= k < extended.len() implies is_digit_char(extended[k]) by {
                if k < extended.len() - 1 {
                    assert(extended[k] == prefix[k]);
                }
            }
        }
        let next: u64 = acc * 10 + (code - 48) as u64;
        proof {
            assert(next == digits_value(extended));
        }
        if next > 0xffff_ffff {
            proof {
                if all_digits(digits) {
                    assert(extended =~= digits.subrange(0, i as int + 1 - start));
                    lemma_digits_value_prefix_le(digits, i as int + 1 - start);
                }
            }
            return 0;
        }
        acc = next;
        i = i + 1;
    }
    acc as u32
}

/// Read a signed 64-bit number permissively: malformed or overflowing
/// input yields zero, never an error.
pub fn parse_i64_or_zero(s: &str) -> (r: i64)
    ensures
        r == spec_parse_i64_or_zero(s@),
{
    let n = s.unicode_len();
    let mut i: usize = 0;
    let mut negative = false;
    if n > 0 {
        let first = s.get_char(0);
        if first == '-' {
            negative = true;
            i = 1;
        } else if first == '+' {
            i = 1;
        }
    }
    let ghost start = i as int;
    let ghost digits = s@.subrange(start, n as int);
    proof {
        assert(digits =~= (if s@.len() > 0 && (s@[0] == '-' || s@[0] == '+') {
            s@.drop_first()
        } else {
            s@
        }));
    }
    if i >= n {
        return 0;
    }
    // The largest admissible magnitude: one more for a negative number,
    // whose range reaches one further down.
    let magnitude_cap: u128 = if negative {
        9223372036854775808
    } else {
        9223372036854775807
    };
    let mut acc: u128 = 0;
    while i < n
        invariant
            n == s@.len(),
            0 <= start <= i as int <= n as int,
            negative == (s@.len() > 0 && s@[0] == '-'),
            start == (if s@.len() > 0 && (s@[0] == '-' || s@[0] == '+') {
                1int
            } else {
                0int
            }),
            digits == s@.subrange(start, n as int),
            digits == (if s@.len() > 0 && (s@[0] == '-' || s@[0] == '+') {
                s@.drop_first()
            } else {
                s@
            }),
            digits.len() > 0,
            magnitude_cap == (if negative {
                9223372036854775808u128
            } else {
                9223372036854775807u128
            }),
            all_digits(s@.subrange(start, i as int)),
            acc == digits_value(s@.subrange(start, i as int)),
            acc <= magnitude_cap,
        decreases n - i,
    {
        let code = s.get_char(i) as u32;
        if code < 48 || code > 57 {
            proof {
                assert(digits[i as int - start] == s@[i as int]);
                assert(!all_digits(digits));
            }
            return 0;
        }
        let ghost prefix = s@.subrange(start, i as int);
        let ghost extended = s@.subrange(start, i as int + 1);
        proof {
            assert(extended.drop_last() =~= prefix);
            assert(extended.last() == s@[i as int]);
            assert forall|k: int| 0 <= k < extended.len() implies is_digit_char(extended[k]) by {
                if k < extended.len() - 1 {
                    assert(extended[k] == prefix[k]);
                }
            }
        }
        let next: u128 = acc * 10 + (code - 48) as u128;
        proof {
            assert(next == digits_value(extended));
        }
        if next > magnitude_cap {
            proof {
                if all_digits(digits) {
                    assert(extended =~= digits.subrange(0, i as int + 1 - start));
                    lemma_digits_value_prefix_le(digits, i as int + 1 - start);
                }
            }
            return 0;
        }
        acc = next;
        i = i + 1;
    }
    if negative {
        if acc == 9223372036854775808 {
            i64::MIN
        } else {
            -(acc as i64)
        }
    } else {
        acc as i64
    }
}

} // verus!
