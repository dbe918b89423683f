//! Decimal text for integers: the form JSON numbers take for the integer
//! fields of the event model, with the round trip between a value and its
//! text proved.
use vstd::prelude::*;
use crate::json::is_digit;

verus! {

/// The digit character for a value below 10.
pub open spec fn digit_char(d: int) -> char {
    if d == 0 {
        '0'
    } else if d == 1 {
        '1'
    } else if d == 2 {
        '2'
    } else if d == 3 {
        '3'
    } else if d == 4 {
        '4'
    } else if d == 5 {
        '5'
    } else if d == 6 {
        '6'
    } else if d == 7 {
        '7'
    } else if d == 8 {
        '8'
    } else {
        '9'
    }
}

/// Pick the digit character for a value below 10.
fn digit_char_of(d: u64) -> (c: char)
    requires
        d < 10,
    ensures
        c == digit_char(d as int),
{
    if d == 0 {
        '0'
    } else if d == 1 {
        '1'
    } else if d == 2 {
        '2'
    } else if d == 3 {
        '3'
    } else if d == 4 {
        '4'
    } else if d == 5 {
        '5'
    } else if d == 6 {
        '6'
    } else if d == 7 {
        '7'
    } else if d == 8 {
        '8'
    } else {
        '9'
    }
}

/// Every character is a decimal digit.
pub open spec fn all_digits(t: Seq<char>) -> bool {
    forall|j: int| 0 <= j < t.len() ==> is_digit(t[j])
}

/// The value of the first `i` digit characters, read as a decimal number.
pub open spec fn digits_value(t: Seq<char>, i: int) -> int
    decreases i,
{
    if i <= 0 {
        0
    } else {
        digits_value(t, i - 1) * 10 + ((t[i - 1] as u32) - 48)
    }
}

/// The integer a text stands for: an optional minus sign, then digits.
/// `None` when the text has another shape.
pub open spec fn int_text_value(t: Seq<char>) -> Option<int> {
    if t.len() >= 1 && t[0] == '-' {
        let d = t.skip(1);
        if d.len() >= 1 && all_digits(d) {
            Some(-digits_value(d, d.len() as int))
        } else {
            None
        }
    } else if t.len() >= 1 && all_digits(t) {
        Some(digits_value(t, t.len() as int))
    } else {
        None
    }
}

/// The decimal text of a value, most significant digit first.
pub open spec fn nat_text(v: int) -> Seq<char>
    decreases v,
{
    if v < 10 {
        seq![digit_char(if v >= 0 {
            v
        } else {
            0
        })]
    } else {
        nat_text(v / 10) + seq![digit_char(v % 10)]
    }
}

/// The decimal text of a signed value.
pub open spec fn i64_text(v: int) -> Seq<char> {
    if v < 0 {
        seq!['-'] + nat_text(-v)
    } else {
        nat_text(v)
    }
}

/// A digit value is nonnegative.
proof fn lemma_digits_value_nonneg(t: Seq<char>, i: int)
    requires
        i <= t.len(),
        forall|j: int| 0 <= j < i ==> is_digit(t[j]),
    ensures
        digits_value(t, i) >= 0,
    decreases i,
{
    if i > 0 {
        lemma_digits_value_nonneg(t, i - 1);
        assert(digits_value(t, i - 1) * 10 >= 0) by (nonlinear_arith)
            requires
                digits_value(t, i - 1) >= 0,
        ;
    }
}

/// Reading more digits never lowers the value.
proof fn lemma_digits_value_monotone(t: Seq<char>, i: int, n: int)
    requires
        0 <= i <= n <= t.len(),
        forall|j: int| 0 <= j < n ==> is_digit(t[j]),
    ensures
        digits_value(t, n) >= digits_value(t, i),
    decreases n - i,
{
    if i < n {
        lemma_digits_value_monotone(t, i, n - 1);
        lemma_digits_value_nonneg(t, n - 1);
        assert(digits_value(t, n - 1) * 10 >= digits_value(t, n - 1)) by (nonlinear_arith)
            requires
                digits_value(t, n - 1) >= 0,
        ;
    }
}

/// The digit value reads only the first `i` characters.
proof fn lemma_digits_value_prefix(s: Seq<char>, t: Seq<char>, i: int)
    requires
        0 <= i <= s.len(),
        i <= t.len(),
        forall|j: int| 0 <= j < i ==> s[j] == t[j],
    ensures
        digits_value(s, i) == digits_value(t, i),
    decreases i,
{
    if i > 0 {
        lemma_digits_value_prefix(s, t, i - 1);
    }
}

/// Parse a decimal text into a signed 64-bit value. `None` when the text is
/// not an optionally-signed digit string or its value does not fit.
pub fn parse_i64_chars(t: &[char]) -> (r: Option<i64>)
    ensures
        match r {
            Some(x) => int_text_value(t@) == Some(x as int),
            None => match int_text_value(t@) {
                Some(v) => v > i64::MAX || v < i64::MIN,
                None => true,
            },
        },
{
    if t.len() == 0 {
        return None;
    }
    let neg = t[0] == '-';
    let start: usize = if neg {
        1
    } else {
        0
    };
    if start >= t.len() {
        return None;
    }
    let ghost d = if neg {
        t@.skip(1)
    } else {
        t@
    };
    let mut acc: i128 = 0;
    let mut i = start;
    while i < t.len()
        invariant
            start <= i <= t@.len(),
            start == (if neg {
                1int
            } else {
                0int
            }),
            neg == (t@[0] == '-'),
            t@.len() > start,
            d == (if neg {
                t@.skip(1)
            } else {
                t@
            }),
            forall|j: int| start <= j < i ==> is_digit(t@[j]),
            acc == digits_value(d, i - start),
            0 <= acc < 10_000_000_000_000_000_000i128,
        decreases t@.len() - i,
    {
        let c = t[i];
        if !('0' <= c && c <= '9') {
            proof {
                assert(!is_digit(t@[i as int]));
                if neg {
                    assert(!is_digit(d[i - 1]));
                } else {
                    assert(!is_digit(d[i as int]));
                }
            }
            return None;
        }
        let v = (c as u32) - 48;
        acc = acc * 10 + (v as i128);
        proof {
            assert(d[i - start] == t@[i as int]);
        }
        i = i + 1;
        if acc >= 10_000_000_000_000_000_000i128 {
            proof {
                assert(forall|j: int| 0 <= j < d.len() ==> (start <= j + start < t@.len() && d[j]
                    == t@[j + start]));
                if all_digits(d) {
                    lemma_digits_value_monotone(d, i - start, d.len() as int);
                }
            }
            return None;
        }
    }
    proof {
        assert(i - start == d.len());
        assert(forall|j: int| 0 <= j < d.len() ==> d[j] == t@[j + start]);
        assert(all_digits(d));
    }
    if neg {
        if acc > 9_223_372_036_854_775_808i128 {
            return None;
        }
        Some((-acc) as i64)
    } else {
        if acc > 9_223_372_036_854_775_807i128 {
            return None;
        }
        Some(acc as i64)
    }
}

/// Append the decimal text of a value.
fn push_nat_text(out: &mut Vec<char>, m: u64)
    ensures
        final(out)@ == old(out)@ + nat_text(m as int),
    decreases m,
{
    if m < 10 {
        let c = digit_char_of(m);
        out.push(c);
        proof {
            assert(final(out)@ =~= old(out)@ + nat_text(m as int));
        }
    } else {
        push_nat_text(out, m / 10);
        let c = digit_char_of(m % 10);
        out.push(c);
        proof {
            assert(final(out)@ =~= old(out)@ + nat_text(m as int));
        }
    }
}

/// The decimal text of a signed 64-bit value.
pub fn i64_to_chars(v: i64) -> (r: Vec<char>)
    ensures
        r@ == i64_text(v as int),
{
    let mut out: Vec<char> = Vec::new();
    if v < 0 {
        out.push('-');
        let m: u64 = (-(v as i128)) as u64;
        push_nat_text(&mut out, m);
        proof {
            assert(out@ =~= i64_text(v as int));
        }
    } else {
        push_nat_text(&mut out, v as u64);
        proof {
            assert(out@ =~= i64_text(v as int));
        }
    }
    out
}

/// The decimal text of a value consists of digits.
proof fn lemma_nat_text_digits(v: int)
    requires
        v >= 0,
    ensures
        nat_text(v).len() >= 1,
        all_digits(nat_text(v)),
    decreases v,
{
    if v < 10 {
    } else {
        lemma_nat_text_digits(v / 10);
    }
}

/// Reading the decimal text of a value gives the value back.
proof fn lemma_digits_value_nat_text(v: int)
    requires
        v >= 0,
    ensures
        digits_value(nat_text(v), nat_text(v).len() as int) == v,
    decreases v,
{
    if v < 10 {
        assert(nat_text(v).len() == 1);
        assert(nat_text(v)[0] == digit_char(v));
        assert((digit_char(v) as u32) - 48 == v);
        assert(digits_value(nat_text(v), 0) == 0);
        assert(digits_value(nat_text(v), 1) == v);
    } else {
        lemma_digits_value_nat_text(v / 10);
        let pre = nat_text(v / 10);
        let full = nat_text(v);
        let n = pre.len() as int;
        assert(full.len() == n + 1);
        lemma_digits_value_prefix(pre, full, n);
        assert(digits_value(full, n + 1) == digits_value(full, n) * 10 + ((full[n] as u32) - 48));
        assert(full[n] == digit_char(v % 10));
        assert((digit_char(v % 10) as u32) - 48 == v % 10);
        assert((v / 10) * 10 + v % 10 == v) by (nonlinear_arith);
        assert(digits_value(full, n + 1) == v);
        assert(full.len() as int == n + 1);
        assert(digits_value(nat_text(v), nat_text(v).len() as int) == v);
    }
}

/// The decimal text of a signed value reads back as the value.
pub proof fn lemma_int_text_round_trip(v: int)
    requires
        i64::MIN <= v <= i64::MAX,
    ensures
        int_text_value(i64_text(v)) == Some(v),
{
    if v < 0 {
        let m = -v;
        lemma_nat_text_digits(m);
        lemma_digits_value_nat_text(m);
        let t = i64_text(v);
        assert(t[0] == '-');
        assert(t.skip(1) =~= nat_text(m));
    } else {
        lemma_nat_text_digits(v);
        lemma_digits_value_nat_text(v);
        let t = i64_text(v);
        lemma_nat_text_first_digit(v);
        assert(t[0] != '-');
    }
}

/// The first character of a decimal text is a digit, not a sign.
proof fn lemma_nat_text_first_digit(v: int)
    requires
        v >= 0,
    ensures
        nat_text(v).len() >= 1,
        is_digit(nat_text(v)[0]),
        nat_text(v)[0] != '-',
    decreases v,
{
    if v < 10 {
    } else {
        lemma_nat_text_first_digit(v / 10);
    }
}

} // verus!
