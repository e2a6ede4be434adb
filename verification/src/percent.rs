//! Percent-decoding of URL path segments: `%` followed by two hexadecimal
//! digits stands for the byte they spell; every other byte, a `%` that is not
//! followed by two hexadecimal digits included, stands for itself.

use vstd::prelude::*;

verus! {

/// The value of an ASCII hexadecimal digit, either case.
pub open spec fn hex_value(b: u8) -> Option<u8> {
    if 48 <= b <= 57 {
        Some((b - 48) as u8)
    } else if 65 <= b <= 70 {
        Some((b - 55) as u8)
    } else if 97 <= b <= 102 {
        Some((b - 87) as u8)
    } else {
        None
    }
}

/// Whether `s` starts with `%` and two hexadecimal digits.
pub open spec fn starts_with_escape(s: Seq<u8>) -> bool {
    &&& s.len() >= 3
    &&& s[0] == 37
    &&& hex_value(s[1]) is Some
    &&& hex_value(s[2]) is Some
}

/// The byte spelled by the escape at the start of `s`.
pub open spec fn escaped_byte(s: Seq<u8>) -> u8 {
    (hex_value(s[1]).unwrap() * 16 + hex_value(s[2]).unwrap()) as u8
}

/// The bytes that `s` stands for once its escapes are decoded.
pub open spec fn percent_decoded(s: Seq<u8>) -> Seq<u8>
    decreases s.len(),
{
    if s.len() == 0 {
        Seq::empty()
    } else if starts_with_escape(s) {
        seq![escaped_byte(s)] + percent_decoded(s.subrange(3, s.len() as int))
    } else {
        seq![s[0]] + percent_decoded(s.subrange(1, s.len() as int))
    }
}

/// The value of a hexadecimal digit.
pub fn hex_digit(b: u8) -> (r: Option<u8>)
    ensures
        r == hex_value(b),
{
    if 48 <= b && b <= 57 {
        Some(b - 48)
    } else if 65 <= b && b <= 70 {
        Some(b - 55)
    } else if 97 <= b && b <= 102 {
        Some(b - 87)
    } else {
        None
    }
}

/// Decodes the percent escapes of `input`.
pub fn percent_decode(input: &[u8]) -> (out: Vec<u8>)
    ensures
        out@ == percent_decoded(input@),
{
    let n = input.len();
    let mut out: Vec<u8> = Vec::new();
    let mut i: usize = 0;
    assert(input@.subrange(0, n as int) =~= input@);
    while i < n
        invariant
            n == input@.len(),
            i <= n,
            percent_decoded(input@) == out@ + percent_decoded(input@.subrange(i as int, n as int)),
        decreases n - i,
    {
        let ghost rest = input@.subrange(i as int, n as int);
        let mut escaped: Option<u8> = None;
        if input[i] == 37 && n - i >= 3 {
            match (hex_digit(input[i + 1]), hex_digit(input[i + 2])) {
                (Some(h), Some(l)) => {
                    escaped = Some(h * 16 + l);
                },
                _ => {},
            }
        }
        match escaped {
            Some(b) => {
                assert(starts_with_escape(rest));
                assert(rest.subrange(3, rest.len() as int) =~= input@.subrange(i + 3, n as int));
                out.push(b);
                i = i + 3;
                assert(percent_decoded(input@) == out@ + percent_decoded(
                    input@.subrange(i as int, n as int),
                ));
            },
            None => {
                assert(!starts_with_escape(rest));
                assert(rest.subrange(1, rest.len() as int) =~= input@.subrange(i + 1, n as int));
                out.push(input[i]);
                i = i + 1;
                assert(percent_decoded(input@) == out@ + percent_decoded(
                    input@.subrange(i as int, n as int),
                ));
            },
        }
    }
    assert(input@.subrange(n as int, n as int) =~= Seq::<u8>::empty());
    assert(out@ + Seq::<u8>::empty() =~= out@);
    out
}

/// Bytes without a `%` decode to themselves.
pub proof fn lemma_decode_without_escapes(s: Seq<u8>)
    requires
        forall|i: int| 0 <= i < s.len() ==> s[i] != 37,
    ensures
        percent_decoded(s) == s,
    decreases s.len(),
{
    if s.len() > 0 {
        let rest = s.subrange(1, s.len() as int);
        lemma_decode_without_escapes(rest);
        assert(seq![s[0]] + rest =~= s);
    }
}

/// Decoding never lengthens the input.
pub proof fn lemma_decode_not_longer(s: Seq<u8>)
    ensures
        percent_decoded(s).len() <= s.len(),
    decreases s.len(),
{
    if s.len() > 0 {
        if starts_with_escape(s) {
            lemma_decode_not_longer(s.subrange(3, s.len() as int));
        } else {
            lemma_decode_not_longer(s.subrange(1, s.len() as int));
        }
    }
}

/// The uppercase hexadecimal digit for `n < 16`.
pub open spec fn upper_hex_digit(n: u8) -> u8 {
    if n < 10 {
        (48 + n) as u8
    } else {
        (55 + n) as u8
    }
}

/// The lowercase hexadecimal digit for `n < 16`.
pub open spec fn lower_hex_digit(n: u8) -> u8 {
    if n < 10 {
        (48 + n) as u8
    } else {
        (87 + n) as u8
    }
}

/// Every byte written as `%` and two hexadecimal digits, in upper or lower
/// case.
pub open spec fn fully_escaped(bytes: Seq<u8>, upper: bool) -> Seq<u8>
    decreases bytes.len(),
{
    if bytes.len() == 0 {
        Seq::empty()
    } else {
        let b = bytes[0];
        let hi = if upper { upper_hex_digit(b / 16) } else { lower_hex_digit(b / 16) };
        let lo = if upper { upper_hex_digit(b % 16) } else { lower_hex_digit(b % 16) };
        seq![37u8, hi, lo] + fully_escaped(bytes.drop_first(), upper)
    }
}

/// Decoding undoes escaping: any bytes, each written as `%` and two
/// hexadecimal digits of either case, decode back to themselves.
pub proof fn law_decode_undoes_escaping(bytes: Seq<u8>, upper: bool)
    ensures
        percent_decoded(fully_escaped(bytes, upper)) == bytes,
    decreases bytes.len(),
{
    if bytes.len() > 0 {
        let b = bytes[0];
        let e = fully_escaped(bytes, upper);
        let rest = bytes.drop_first();
        law_decode_undoes_escaping(rest, upper);
        assert(e[0] == 37u8);
        assert(hex_value(e[1]) == Some((b / 16) as u8));
        assert(hex_value(e[2]) == Some((b % 16) as u8));
        assert(starts_with_escape(e));
        assert(escaped_byte(e) == b);
        assert(e.subrange(3, e.len() as int) =~= fully_escaped(rest, upper));
        assert(seq![b] + rest =~= bytes);
    }
}

} // verus!
