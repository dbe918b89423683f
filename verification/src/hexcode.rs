//! Hexadecimal encoding and decoding of byte strings.
//!
//! Signature headers carry the expected digest as a hex string; decoding it
//! is specified here down to the single digit.
use vstd::prelude::*;

verus! {

/// Numeric value of one hex digit (both cases accepted), or `None` when the
/// character is not a hex digit.
pub open spec fn hex_digit_value(c: char) -> Option<u8> {
    let v = c as u32;
    if 48 <= v && v <= 57 {
        Some((v - 48) as u8)
    } else if 97 <= v && v <= 102 {
        Some((v - 87) as u8)
    } else if 65 <= v && v <= 70 {
        Some((v - 55) as u8)
    } else {
        None
    }
}

/// The byte string a hex string stands for: two digits per byte, high digit
/// first. `None` when the length is odd or a character is not a hex digit.
pub open spec fn hex_decoded(s: Seq<char>) -> Option<Seq<u8>>
    decreases s.len(),
{
    if s.len() == 0 {
        Some(Seq::empty())
    } else if s.len() == 1 {
        None
    } else {
        match (hex_digit_value(s[0]), hex_digit_value(s[1])) {
            (Some(h), Some(l)) => match hex_decoded(s.skip(2)) {
                Some(rest) => Some(seq![(h * 16 + l) as u8] + rest),
                None => None,
            },
            _ => None,
        }
    }
}

/// The lowercase hex digit for a value below 16.
pub open spec fn hex_digit_char(v: u8) -> char {
    if v < 10 {
        (48 + v) as char
    } else {
        (87 + v) as char
    }
}

/// The lowercase hex rendering of a byte string, two digits per byte.
pub open spec fn hex_encoded(b: Seq<u8>) -> Seq<char>
    decreases b.len(),
{
    if b.len() == 0 {
        Seq::empty()
    } else {
        seq![hex_digit_char(b[0] / 16), hex_digit_char(b[0] % 16)] + hex_encoded(b.drop_first())
    }
}

/// Decode a hex string into bytes.
pub fn hex_decode(s: &[char]) -> (r: Option<Vec<u8>>)
    ensures
        match r {
            Some(b) => hex_decoded(s@) == Some(b@),
            None => hex_decoded(s@) is None,
        },
{
    let mut out: Vec<u8> = Vec::new();
    let mut i: usize = 0;
    proof {
        assert(s@.skip(0) =~= s@);
        if let Some(rest) = hex_decoded(s@) {
            assert(Seq::<u8>::empty() + rest =~= rest);
        }
    }
    while i < s.len()
        invariant
            i % 2 == 0,
            i <= s.len(),
            match hex_decoded(s@.skip(i as int)) {
                Some(rest) => hex_decoded(s@) == Some(out@ + rest),
                None => hex_decoded(s@) is None,
            },
        decreases s.len() - i,
    {
        if i + 1 >= s.len() {
            proof {
                assert(s@.skip(i as int).len() == 1);
            }
            return None;
        }
        let h = match hex_digit_of(s[i]) {
            Some(v) => v,
            None => {
                proof {
                    assert(s@.skip(i as int)[0] == s@[i as int]);
                }
                return None;
            },
        };
        let l = match hex_digit_of(s[i + 1]) {
            Some(v) => v,
            None => {
                proof {
                    assert(s@.skip(i as int)[1] == s@[i as int + 1]);
                }
                return None;
            },
        };
        proof {
            assert(s@.skip(i as int)[0] == s@[i as int]);
            assert(s@.skip(i as int)[1] == s@[i as int + 1]);
            assert(s@.skip(i as int).skip(2) =~= s@.skip(i as int + 2));
        }
        out.push(h * 16 + l);
        i = i + 2;
    }
    proof {
        assert(s@.skip(i as int) =~= Seq::<char>::empty());
        assert(out@ + Seq::<u8>::empty() =~= out@);
    }
    Some(out)
}

/// Decode one hex digit.
pub fn hex_digit_of(c: char) -> (r: Option<u8>)
    ensures
        r == hex_digit_value(c),
{
    let v = c as u32;
    if 48 <= v && v <= 57 {
        Some((v - 48) as u8)
    } else if 97 <= v && v <= 102 {
        Some((v - 87) as u8)
    } else if 65 <= v && v <= 70 {
        Some((v - 55) as u8)
    } else {
        None
    }
}

/// Encode bytes as lowercase hex.
pub fn hex_encode(b: &[u8]) -> (r: Vec<char>)
    ensures
        r@ == hex_encoded(b@),
{
    let mut out: Vec<char> = Vec::new();
    let mut i: usize = 0;
    while i < b.len()
        invariant
            i <= b.len(),
            out@ == hex_encoded(b@.take(i as int)),
        decreases b.len() - i,
    {
        let hi = b[i] / 16;
        let lo = b[i] % 16;
        let c_hi = if hi < 10 {
            (48 + hi) as char
        } else {
            (87 + hi) as char
        };
        let c_lo = if lo < 10 {
            (48 + lo) as char
        } else {
            (87 + lo) as char
        };
        out.push(c_hi);
        out.push(c_lo);
        proof {
            lemma_hex_encoded_snoc(b@, i as int);
        }
        i = i + 1;
    }
    proof {
        assert(b@.take(b@.len() as int) =~= b@);
    }
    out
}

/// Appending one byte to a string appends its two digits to the rendering.
proof fn lemma_hex_encoded_snoc(b: Seq<u8>, i: int)
    requires
        0 <= i < b.len(),
    ensures
        hex_encoded(b.take(i + 1)) == hex_encoded(b.take(i)) + seq![
            hex_digit_char(b[i] / 16),
            hex_digit_char(b[i] % 16),
        ],
    decreases i,
{
    if i == 0 {
        assert(b.take(1).drop_first() =~= Seq::<u8>::empty());
        assert(hex_encoded(b.take(0)) =~= Seq::<char>::empty());
        assert(b.take(1)[0] == b[0]);
        assert(hex_encoded(b.take(1).drop_first()) =~= Seq::<char>::empty());
        let digits = seq![hex_digit_char(b[0] / 16), hex_digit_char(b[0] % 16)];
        assert(digits + Seq::<char>::empty() =~= digits);
        assert(hex_encoded(b.take(1)) =~= digits);
    } else {
        lemma_hex_encoded_snoc(b.drop_first(), i - 1);
        assert(b.take(i + 1).drop_first() =~= b.drop_first().take(i));
        assert(b.take(i).drop_first() =~= b.drop_first().take(i - 1));
        assert(b.take(i + 1)[0] == b[0]);
        assert(b.take(i)[0] == b[0]);
        assert(b.drop_first()[i - 1] == b[i]);
    }
}

/// Decoding inverts encoding: the hex rendering of a byte string decodes back
/// to the same bytes.
pub proof fn lemma_hex_round_trip(b: Seq<u8>)
    ensures
        hex_decoded(hex_encoded(b)) == Some(b),
    decreases b.len(),
{
    if b.len() == 0 {
        assert(hex_encoded(b) =~= Seq::<char>::empty());
    } else {
        lemma_hex_round_trip(b.drop_first());
        let e = hex_encoded(b);
        let hi = hex_digit_char(b[0] / 16);
        let lo = hex_digit_char(b[0] % 16);
        assert(e[0] == hi);
        assert(e[1] == lo);
        assert(e.skip(2) =~= hex_encoded(b.drop_first()));
        lemma_hex_digit_round_trip(b[0] / 16);
        lemma_hex_digit_round_trip(b[0] % 16);
        assert(hex_digit_value(hi) == Some(b[0] / 16));
        assert(hex_digit_value(lo) == Some(b[0] % 16));
        assert((b[0] / 16) * 16 + b[0] % 16 == b[0]) by {
            assert(b[0] / 16 * 16 + b[0] % 16 == b[0]) by (nonlinear_arith);
        }
        assert(seq![b[0]] + b.drop_first() =~= b);
    }
}

/// A digit's character decodes back to the digit.
proof fn lemma_hex_digit_round_trip(v: u8)
    requires
        v < 16,
    ensures
        hex_digit_value(hex_digit_char(v)) == Some(v),
{
}

} // verus!
