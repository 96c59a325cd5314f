use vstd::prelude::*;

verus! {

pub open spec fn is_digit(c: char) -> bool {
    '0' <= c && c <= '9'
}

/// A non-empty run of ASCII digits.
pub open spec fn all_digits(s: Seq<char>) -> bool {
    s.len() > 0 && forall|i: int| 0 <= i < s.len() ==> is_digit(#[trigger] s[i])
}

/// Position of the first character equal to `a` or `b`, or the length when there is none.
pub open spec fn index_of(s: Seq<char>, a: char, b: char) -> int
    decreases s.len(),
{
    if s.len() == 0 {
        0
    } else if s[0] == a || s[0] == b {
        0
    } else {
        1 + index_of(s.drop_first(), a, b)
    }
}

/// Digits, optionally followed by a point and more digits.
pub open spec fn is_mantissa(s: Seq<char>) -> bool {
    let d = index_of(s, '.', '.');
    if d == s.len() {
        all_digits(s)
    } else {
        all_digits(s.take(d)) && all_digits(s.skip(d + 1))
    }
}

/// Digits with an optional sign.
pub open spec fn is_exponent(s: Seq<char>) -> bool {
    if s.len() > 0 && (s[0] == '+' || s[0] == '-') {
        all_digits(s.skip(1))
    } else {
        all_digits(s)
    }
}

/// A decimal numeral without sign: a mantissa and an optional exponent.
pub open spec fn is_unsigned_decimal(s: Seq<char>) -> bool {
    let e = index_of(s, 'e', 'E');
    if e == s.len() {
        is_mantissa(s)
    } else {
        is_mantissa(s.take(e)) && is_exponent(s.skip(e + 1))
    }
}

/// A decimal numeral as JSON writes one: `-12.5`, `0.031`, `1e-7`.
pub open spec fn is_decimal(s: Seq<char>) -> bool {
    if s.len() > 0 && s[0] == '-' {
        is_unsigned_decimal(s.skip(1))
    } else {
        is_unsigned_decimal(s)
    }
}

/// A decimal numeral whose value is above zero: no minus sign, and a non-zero
/// digit before the exponent.
pub open spec fn is_positive_decimal(s: Seq<char>) -> bool {
    &&& is_decimal(s)
    &&& s[0] != '-'
    &&& exists|i: int| 0 <= i < index_of(s, 'e', 'E') && '1' <= #[trigger] s[i] && s[i] <= '9'
}

/// The number that a run of digits denotes.
pub open spec fn digits_value(s: Seq<char>) -> nat
    decreases s.len(),
{
    if s.len() == 0 {
        0
    } else {
        digits_value(s.drop_last()) * 10 + (s.last() as nat - '0' as nat) as nat
    }
}

/// A run of digits whose value fits in a `u64`.
pub open spec fn is_u64_text(s: Seq<char>) -> bool {
    all_digits(s) && digits_value(s) <= u64::MAX
}

proof fn lemma_index_of_step(s: Seq<char>, a: char, b: char, i: int)
    requires
        0 <= i < s.len(),
        s[i] != a && s[i] != b,
    ensures
        index_of(s.skip(i), a, b) == 1 + index_of(s.skip(i + 1), a, b),
{
    assert(s.skip(i).drop_first() =~= s.skip(i + 1));
}

/// The first match lies within `s`, and no character before it matches.
pub proof fn lemma_index_of_bounds(s: Seq<char>, a: char, b: char)
    ensures
        0 <= index_of(s, a, b) <= s.len(),
        forall|j: int| 0 <= j < index_of(s, a, b) ==> s[j] != a && s[j] != b,
        index_of(s, a, b) < s.len() ==> (s[index_of(s, a, b)] == a || s[index_of(s, a, b)] == b),
    decreases s.len(),
{
    if s.len() > 0 && !(s[0] == a || s[0] == b) {
        lemma_index_of_bounds(s.drop_first(), a, b);
        assert forall|j: int| 0 <= j < index_of(s, a, b) implies s[j] != a && s[j] != b by {
            if j > 0 {
                assert(s[j] == s.drop_first()[j - 1]);
            }
        }
    }
}

/// Finds the first `a` or `b` among the characters of `s` from `lo` to `hi`.
fn find_either(s: &str, lo: usize, hi: usize, a: char, b: char) -> (r: usize)
    requires
        lo <= hi <= s@.len(),
    ensures
        r == lo + index_of(s@.subrange(lo as int, hi as int), a, b),
        lo <= r <= hi,
{
    let ghost sub = s@.subrange(lo as int, hi as int);
    let mut i: usize = lo;
    proof {
        assert(sub.skip(0) =~= sub);
        lemma_index_of_bounds(sub, a, b);
    }
    while i < hi
        invariant
            lo <= i <= hi <= s@.len(),
            sub == s@.subrange(lo as int, hi as int),
            0 <= index_of(sub, a, b) <= sub.len(),
            index_of(sub, a, b) == (i - lo) + index_of(sub.skip(i - lo), a, b),
        decreases hi - i,
    {
        let c = s.get_char(i);
        if c == a || c == b {
            proof {
                assert(sub.skip(i - lo)[0] == c);
            }
            return i;
        }
        proof {
            assert(sub[i - lo] == c);
            lemma_index_of_step(sub, a, b, i - lo);
        }
        i = i + 1;
    }
    proof {
        assert(sub.skip(i - lo).len() == 0);
    }
    i
}

/// Whether the characters of `s` from `lo` to `hi` form a non-empty run of digits.
fn digits_between(s: &str, lo: usize, hi: usize) -> (r: bool)
    requires
        lo <= hi <= s@.len(),
    ensures
        r == all_digits(s@.subrange(lo as int, hi as int)),
{
    if lo == hi {
        return false;
    }
    let mut i: usize = lo;
    while i < hi
        invariant
            lo <= i <= hi <= s@.len(),
            forall|j: int| lo <= j < i ==> is_digit(#[trigger] s@[j]),
        decreases hi - i,
    {
        let c = s.get_char(i);
        if !('0' <= c && c <= '9') {
            assert(s@.subrange(lo as int, hi as int)[i - lo] == c);
            return false;
        }
        i = i + 1;
    }
    assert forall|j: int| 0 <= j < hi - lo implies is_digit(#[trigger] s@.subrange(lo as int, hi as int)[j]) by {
        assert(s@.subrange(lo as int, hi as int)[j] == s@[lo + j]);
    }
    true
}

/// Whether the characters of `s` from `lo` to `hi` form a mantissa.
fn mantissa_between(s: &str, lo: usize, hi: usize) -> (r: bool)
    requires
        lo <= hi <= s@.len(),
    ensures
        r == is_mantissa(s@.subrange(lo as int, hi as int)),
{
    let ghost sub = s@.subrange(lo as int, hi as int);
    let d = find_either(s, lo, hi, '.', '.');
    if d == hi {
        digits_between(s, lo, hi)
    } else {
        proof {
            assert(sub.take(d - lo) =~= s@.subrange(lo as int, d as int));
            assert(sub.skip(d - lo + 1) =~= s@.subrange(d + 1, hi as int));
        }
        digits_between(s, lo, d) && digits_between(s, d + 1, hi)
    }
}

/// Whether the characters of `s` from `lo` to `hi` form an exponent.
fn exponent_between(s: &str, lo: usize, hi: usize) -> (r: bool)
    requires
        lo <= hi <= s@.len(),
    ensures
        r == is_exponent(s@.subrange(lo as int, hi as int)),
{
    let ghost sub = s@.subrange(lo as int, hi as int);
    if lo < hi {
        let c = s.get_char(lo);
        if c == '+' || c == '-' {
            proof {
                assert(sub.skip(1) =~= s@.subrange(lo + 1, hi as int));
            }
            return digits_between(s, lo + 1, hi);
        }
    }
    digits_between(s, lo, hi)
}

/// Whether the characters of `s` from `lo` to `hi` form an unsigned decimal numeral.
fn unsigned_between(s: &str, lo: usize, hi: usize) -> (r: bool)
    requires
        lo <= hi <= s@.len(),
    ensures
        r == is_unsigned_decimal(s@.subrange(lo as int, hi as int)),
{
    let ghost sub = s@.subrange(lo as int, hi as int);
    let e = find_either(s, lo, hi, 'e', 'E');
    if e == hi {
        mantissa_between(s, lo, hi)
    } else {
        proof {
            assert(sub.take(e - lo) =~= s@.subrange(lo as int, e as int));
            assert(sub.skip(e - lo + 1) =~= s@.subrange(e + 1, hi as int));
        }
        mantissa_between(s, lo, e) && exponent_between(s, e + 1, hi)
    }
}

/// Whether `s` is a decimal numeral.
pub fn is_decimal_text(s: &str) -> (r: bool)
    ensures
        r == is_decimal(s@),
{
    let n = s.unicode_len();
    proof {
        assert(s@.subrange(0, n as int) =~= s@);
        assert(s@.skip(1) =~= s@.subrange(1, n as int));
    }
    if n > 0 && s.get_char(0) == '-' {
        unsigned_between(s, 1, n)
    } else {
        unsigned_between(s, 0, n)
    }
}

/// Whether `s` is a decimal numeral whose value is above zero.
pub fn is_positive_decimal_text(s: &str) -> (r: bool)
    ensures
        r == is_positive_decimal(s@),
{
    if !is_decimal_text(s) {
        return false;
    }
    let n = s.unicode_len();
    if s.get_char(0) == '-' {
        return false;
    }
    let e = find_either(s, 0, n, 'e', 'E');
    proof {
        assert(s@.subrange(0, n as int) =~= s@);
    }
    let mut i: usize = 0;
    while i < e
        invariant
            i <= e <= n == s@.len(),
            e == index_of(s@, 'e', 'E'),
            is_decimal(s@),
            s@[0] != '-',
            forall|j: int| 0 <= j < i ==> !('1' <= #[trigger] s@[j] && s@[j] <= '9'),
        decreases e - i,
    {
        let c = s.get_char(i);
        if '1' <= c && c <= '9' {
            assert('1' <= s@[i as int] && s@[i as int] <= '9');
            return true;
        }
        i = i + 1;
    }
    false
}

proof fn lemma_value_of_prefix(s: Seq<char>, i: int)
    requires
        forall|j: int| 0 <= j < s.len() ==> is_digit(#[trigger] s[j]),
        0 <= i <= s.len(),
    ensures
        digits_value(s.take(i)) <= digits_value(s),
    decreases s.len(),
{
    if i < s.len() {
        let t = s.drop_last();
        assert(s.take(i) =~= t.take(i));
        assert forall|j: int| 0 <= j < t.len() implies is_digit(#[trigger] t[j]) by {
            assert(t[j] == s[j]);
        }
        lemma_value_of_prefix(t, i);
    } else {
        assert(s.take(i) =~= s);
    }
}

/// Reads a run of digits as a `u64`; `None` when `s` is not such a run or
/// its value does not fit.
pub fn parse_u64_text(s: &str) -> (r: Option<u64>)
    ensures
        r.is_some() == is_u64_text(s@),
        r matches Some(v) ==> v == digits_value(s@),
{
    let n = s.unicode_len();
    proof {
        assert(s@.subrange(0, n as int) =~= s@);
    }
    if !digits_between(s, 0, n) {
        return None;
    }
    let mut acc: u64 = 0;
    let mut i: usize = 0;
    proof {
        assert(s@.take(0) =~= Seq::<char>::empty());
    }
    while i < n
        invariant
            i <= n == s@.len(),
            all_digits(s@),
            acc == digits_value(s@.take(i as int)),
        decreases n - i,
    {
        let c = s.get_char(i);
        let d = (c as u32 - '0' as u32) as u64;
        proof {
            assert(s@.take(i + 1).drop_last() =~= s@.take(i as int));
            assert(s@.take(i + 1).last() == c);
            assert(is_digit(s@[i as int]));
        }
        match acc.checked_mul(10) {
            Some(m) => match m.checked_add(d) {
                Some(v) => {
                    acc = v;
                },
                None => {
                    proof {
                        lemma_value_of_prefix(s@, i + 1);
                    }
                    return None;
                },
            },
            None => {
                proof {
                    lemma_value_of_prefix(s@, i + 1);
                }
                return None;
            },
        }
        i = i + 1;
    }
    proof {
        assert(s@.take(n as int) =~= s@);
    }
    Some(acc)
}

} // verus!
