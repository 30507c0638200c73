//! Reading numeric and keyword text: decimal integers, decimal-point numbers,
//! and prefixes, each checked against a statement over the characters.

use vstd::prelude::*;

verus! {

pub open spec fn is_digit(c: char) -> bool {
    '0' <= c && c <= '9'
}

pub open spec fn digit_value(c: char) -> int {
    c as int - '0' as int
}

pub open spec fn all_digits(s: Seq<char>) -> bool {
    forall|i: int| 0 <= i < s.len() ==> is_digit(#[trigger] s[i])
}

/// The number that the digit sequence `s` writes in base ten (0 when empty).
pub open spec fn digits_value(s: Seq<char>) -> int
    decreases s.len(),
{
    if s.len() == 0 {
        0
    } else {
        digits_value(s.drop_last()) * 10 + digit_value(s.last())
    }
}

/// `s` is one or more digits whose value fits in `bound`.
pub open spec fn digits_within(s: Seq<char>, bound: int) -> bool {
    s.len() > 0 && all_digits(s) && digits_value(s) <= bound
}

/// The value of an unsigned decimal text: an optional `+` and one or more
/// digits, with nothing around them, whose value fits in a `u64`.
pub open spec fn unsigned_text_value(s: Seq<char>) -> Option<u64> {
    let body = if s.len() > 0 && s[0] == '+' {
        s.drop_first()
    } else {
        s
    };
    if digits_within(body, u64::MAX as int) {
        Some(digits_value(body) as u64)
    } else {
        None
    }
}

/// The value of a signed decimal text: an optional `+` or `-` and one or more
/// digits, with nothing around them, whose value fits in an `i64`.
pub open spec fn signed_text_value(s: Seq<char>) -> Option<i64> {
    if s.len() > 0 && s[0] == '-' {
        let body = s.drop_first();
        if digits_within(body, 0x8000_0000_0000_0000) {
            Some((-digits_value(body)) as i64)
        } else {
            None
        }
    } else {
        let body = if s.len() > 0 && s[0] == '+' {
            s.drop_first()
        } else {
            s
        };
        if digits_within(body, i64::MAX as int) {
            Some(digits_value(body) as i64)
        } else {
            None
        }
    }
}

/// The states of a reader of decimal-point number text.
#[derive(PartialEq, Eq, Clone, Copy)]
pub enum FloatState {
    Start,
    Signed,
    Whole,
    LeadingPoint,
    Fraction,
    ExponentMark,
    ExponentSign,
    Exponent,
    Rejected,
}

pub open spec fn is_sign(c: char) -> bool {
    c == '+' || c == '-'
}

pub open spec fn is_exponent_mark(c: char) -> bool {
    c == 'e' || c == 'E'
}

/// One character of the grammar
/// `sign? (digit+ '.' digit* | '.' digit+) (('e' | 'E') sign? digit+)?`.
pub open spec fn float_step(st: FloatState, c: char) -> FloatState {
    match st {
        FloatState::Start => if is_sign(c) {
            FloatState::Signed
        } else if is_digit(c) {
            FloatState::Whole
        } else if c == '.' {
            FloatState::LeadingPoint
        } else {
            FloatState::Rejected
        },
        FloatState::Signed => if is_digit(c) {
            FloatState::Whole
        } else if c == '.' {
            FloatState::LeadingPoint
        } else {
            FloatState::Rejected
        },
        FloatState::Whole => if is_digit(c) {
            FloatState::Whole
        } else if c == '.' {
            FloatState::Fraction
        } else {
            FloatState::Rejected
        },
        FloatState::LeadingPoint => if is_digit(c) {
            FloatState::Fraction
        } else {
            FloatState::Rejected
        },
        FloatState::Fraction => if is_digit(c) {
            FloatState::Fraction
        } else if is_exponent_mark(c) {
            FloatState::ExponentMark
        } else {
            FloatState::Rejected
        },
        FloatState::ExponentMark => if is_sign(c) {
            FloatState::ExponentSign
        } else if is_digit(c) {
            FloatState::Exponent
        } else {
            FloatState::Rejected
        },
        FloatState::ExponentSign => if is_digit(c) {
            FloatState::Exponent
        } else {
            FloatState::Rejected
        },
        FloatState::Exponent => if is_digit(c) {
            FloatState::Exponent
        } else {
            FloatState::Rejected
        },
        FloatState::Rejected => FloatState::Rejected,
    }
}

/// The state after reading all of `s`.
pub open spec fn float_state(s: Seq<char>) -> FloatState
    decreases s.len(),
{
    if s.len() == 0 {
        FloatState::Start
    } else {
        float_step(float_state(s.drop_last()), s.last())
    }
}

/// `s` is a floating-point number written with a decimal point, as the
/// standard library reads one: `sign? (digit+ '.' digit* | '.' digit+)`
/// followed by an optional exponent `('e' | 'E') sign? digit+`.
pub open spec fn is_point_number_text(s: Seq<char>) -> bool {
    let st = float_state(s);
    st == FloatState::Fraction || st == FloatState::Exponent
}

proof fn lemma_subrange_step(s: Seq<char>, lo: int, hi: int)
    requires
        0 <= lo < hi <= s.len(),
    ensures
        s.subrange(lo, hi).drop_last() == s.subrange(lo, hi - 1),
        s.subrange(lo, hi).last() == s[hi - 1],
{
    assert(s.subrange(lo, hi).drop_last() =~= s.subrange(lo, hi - 1));
}

/// A longer digit sequence never has a smaller value.
proof fn lemma_digits_value_grows(s: Seq<char>, k: int)
    requires
        0 <= k <= s.len(),
        all_digits(s),
    ensures
        digits_value(s.take(k)) <= digits_value(s),
    decreases s.len(),
{
    if k < s.len() {
        let t = s.drop_last();
        assert(all_digits(t)) by {
            assert forall|i: int| 0 <= i < t.len() implies is_digit(#[trigger] t[i]) by {
                assert(t[i] == s[i]);
            }
        }
        assert(t.take(k) =~= s.take(k));
        lemma_digits_value_grows(t, k);
        assert(is_digit(s[s.len() - 1]));
        assert(digits_value(t) >= 0) by {
            lemma_digits_value_nonneg(t);
        }
    } else {
        assert(s.take(k) =~= s);
    }
}

proof fn lemma_digits_value_nonneg(s: Seq<char>)
    requires
        all_digits(s),
    ensures
        digits_value(s) >= 0,
    decreases s.len(),
{
    if s.len() > 0 {
        let t = s.drop_last();
        assert forall|i: int| 0 <= i < t.len() implies is_digit(#[trigger] t[i]) by {
            assert(t[i] == s[i]);
        }
        lemma_digits_value_nonneg(t);
        assert(is_digit(s[s.len() - 1]));
    }
}

/// Reads the characters of `s` from `start` to the end as a decimal number:
/// `Some` where they are all digits and their value fits in a `u64`.
fn read_digits(s: &str, start: usize) -> (r: Option<u64>)
    requires
        start <= s@.len(),
    ensures
        r == (if all_digits(s@.skip(start as int)) && digits_value(s@.skip(start as int))
            <= u64::MAX {
            Some(digits_value(s@.skip(start as int)) as u64)
        } else {
            None
        }),
        r is Some ==> r->0 as int == digits_value(s@.skip(start as int)),
{
    let n = s.unicode_len();
    let mut i: usize = start;
    let mut v: u64 = 0;
    let ghost rest = s@.skip(start as int);
    assert(s@.subrange(start as int, start as int) =~= Seq::<char>::empty());
    while i < n
        invariant
            start <= i <= n,
            n == s@.len(),
            rest == s@.skip(start as int),
            all_digits(s@.subrange(start as int, i as int)),
            v as int == digits_value(s@.subrange(start as int, i as int)),
        decreases n - i,
    {
        let c = s.get_char(i);
        proof {
            lemma_subrange_step(s@, start as int, i + 1);
            assert(rest[i - start] == c);
        }
        if !('0' <= c && c <= '9') {
            return None;
        }
        let d: u64 = ((c as u32) - ('0' as u32)) as u64;
        let ghost next = s@.subrange(start as int, i + 1);
        assert(all_digits(next)) by {
            assert forall|j: int| 0 <= j < next.len() implies is_digit(#[trigger] next[j]) by {
                if j < next.len() - 1 {
                    assert(next[j] == s@.subrange(start as int, i as int)[j]);
                }
            }
        }
        let m = v.checked_mul(10);
        let w = match m {
            Some(m) => m.checked_add(d),
            None => None,
        };
        match w {
            Some(w) => {
                v = w;
            },
            None => {
                proof {
                    assert(rest.take(i + 1 - start) =~= next);
                    if all_digits(rest) {
                        lemma_digits_value_grows(rest, i + 1 - start);
                    }
                }
                return None;
            },
        }
        i = i + 1;
    }
    assert(s@.subrange(start as int, n as int) =~= rest);
    Some(v)
}

/// Reads an unsigned decimal number, as `u64`'s `from_str` does.
pub fn parse_unsigned(s: &str) -> (r: Option<u64>)
    ensures
        r == unsigned_text_value(s@),
{
    let n = s.unicode_len();
    let start: usize = if n > 0 && s.get_char(0) == '+' {
        1
    } else {
        0
    };
    if start == 1 {
        assert(s@.skip(1) =~= s@.drop_first());
    }
    assert(s@.skip(0) =~= s@);
    if start == n {
        return None;
    }
    read_digits(s, start)
}

/// Reads a signed decimal number, as `i64`'s `from_str` does.
pub fn parse_signed(s: &str) -> (r: Option<i64>)
    ensures
        r == signed_text_value(s@),
{
    let n = s.unicode_len();
    assert(s@.skip(0) =~= s@);
    if n > 0 && s.get_char(0) == '-' {
        assert(s@.skip(1) =~= s@.drop_first());
        if n == 1 {
            return None;
        }
        match read_digits(s, 1) {
            Some(m) => {
                if m < 0x8000_0000_0000_0000 {
                    Some(-(m as i64))
                } else if m == 0x8000_0000_0000_0000 {
                    Some(i64::MIN)
                } else {
                    None
                }
            },
            None => None,
        }
    } else {
        let start: usize = if n > 0 && s.get_char(0) == '+' {
            1
        } else {
            0
        };
        if start == 1 {
            assert(s@.skip(1) =~= s@.drop_first());
        }
        if start == n {
            return None;
        }
        match read_digits(s, start) {
            Some(m) => {
                if m <= i64::MAX as u64 {
                    Some(m as i64)
                } else {
                    None
                }
            },
            None => None,
        }
    }
}

fn float_step_exec(st: FloatState, c: char) -> (r: FloatState)
    ensures
        r == float_step(st, c),
{
    let digit = '0' <= c && c <= '9';
    let sign = c == '+' || c == '-';
    match st {
        FloatState::Start => if sign {
            FloatState::Signed
        } else if digit {
            FloatState::Whole
        } else if c == '.' {
            FloatState::LeadingPoint
        } else {
            FloatState::Rejected
        },
        FloatState::Signed => if digit {
            FloatState::Whole
        } else if c == '.' {
            FloatState::LeadingPoint
        } else {
            FloatState::Rejected
        },
        FloatState::Whole => if digit {
            FloatState::Whole
        } else if c == '.' {
            FloatState::Fraction
        } else {
            FloatState::Rejected
        },
        FloatState::LeadingPoint => if digit {
            FloatState::Fraction
        } else {
            FloatState::Rejected
        },
        FloatState::Fraction => if digit {
            FloatState::Fraction
        } else if c == 'e' || c == 'E' {
            FloatState::ExponentMark
        } else {
            FloatState::Rejected
        },
        FloatState::ExponentMark => if sign {
            FloatState::ExponentSign
        } else if digit {
            FloatState::Exponent
        } else {
            FloatState::Rejected
        },
        FloatState::ExponentSign => if digit {
            FloatState::Exponent
        } else {
            FloatState::Rejected
        },
        FloatState::Exponent => if digit {
            FloatState::Exponent
        } else {
            FloatState::Rejected
        },
        FloatState::Rejected => FloatState::Rejected,
    }
}

/// Whether `s` is a floating-point number written with a decimal point.
pub fn is_point_number(s: &str) -> (r: bool)
    ensures
        r == is_point_number_text(s@),
{
    let n = s.unicode_len();
    let mut i: usize = 0;
    let mut st = FloatState::Start;
    assert(s@.take(0) =~= Seq::<char>::empty());
    while i < n
        invariant
            i <= n,
            n == s@.len(),
            st == float_state(s@.take(i as int)),
        decreases n - i,
    {
        let c = s.get_char(i);
        proof {
            assert(s@.take(i + 1).drop_last() =~= s@.take(i as int));
            assert(s@.take(i + 1).last() == c);
        }
        st = float_step_exec(st, c);
        i = i + 1;
    }
    assert(s@.take(n as int) =~= s@);
    match st {
        FloatState::Fraction => true,
        FloatState::Exponent => true,
        _ => false,
    }
}

/// Whether the character `c` occurs in `s`.
pub fn contains_char(s: &str, c: char) -> (r: bool)
    ensures
        r == s@.contains(c),
{
    let n = s.unicode_len();
    let mut i: usize = 0;
    while i < n
        invariant
            i <= n,
            n == s@.len(),
            forall|j: int| 0 <= j < i ==> s@[j] != c,
        decreases n - i,
    {
        if s.get_char(i) == c {
            return true;
        }
        i = i + 1;
    }
    false
}

/// Whether `s` begins with `prefix`.
pub fn has_prefix(s: &str, prefix: &str) -> (r: bool)
    ensures
        r == prefix@.is_prefix_of(s@),
{
    let n = s.unicode_len();
    let m = prefix.unicode_len();
    if m > n {
        return false;
    }
    let mut i: usize = 0;
    while i < m
        invariant
            i <= m <= n,
            n == s@.len(),
            m == prefix@.len(),
            forall|j: int| 0 <= j < i ==> prefix@[j] == s@[j],
        decreases m - i,
    {
        if s.get_char(i) != prefix.get_char(i) {
            return false;
        }
        i = i + 1;
    }
    true
}

} // verus!
