//! Parsing of the external memory source's response body: a plain-text
//! decimal rendering of one unsigned byte.

use crate::exec::CmpError;
use vstd::prelude::*;

verus! {

/// Whether `b` is an ASCII decimal digit.
pub open spec fn is_ascii_digit(b: u8) -> bool {
    48 <= b <= 57
}

/// Whether every byte of `s` is an ASCII decimal digit.
pub open spec fn all_digits(s: Seq<u8>) -> bool {
    forall|i: int| 0 <= i < s.len() ==> is_ascii_digit(#[trigger] s[i])
}

/// The number written by a sequence of ASCII digits, most significant
/// first. Meaningful only when `all_digits` holds of the sequence.
pub open spec fn decimal_value(s: Seq<u8>) -> int
    decreases s.len(),
{
    if s.len() == 0 {
        0
    } else {
        decimal_value(s.drop_last()) * 10 + (s.last() - 48)
    }
}

proof fn lemma_decimal_value_nonneg(s: Seq<u8>)
    requires
        all_digits(s),
    ensures
        decimal_value(s) >= 0,
    decreases s.len(),
{
    if s.len() > 0 {
        assert(all_digits(s.drop_last()));
        lemma_decimal_value_nonneg(s.drop_last());
    }
}

proof fn lemma_decimal_value_prefix(s: Seq<u8>, i: int)
    requires
        0 <= i <= s.len(),
        all_digits(s),
    ensures
        decimal_value(s.take(i)) <= decimal_value(s),
    decreases s.len() - i,
{
    if i == s.len() {
        assert(s.take(i) =~= s);
    } else {
        assert(s.take(i + 1).drop_last() =~= s.take(i));
        assert(s.take(i + 1).last() == s[i]);
        assert(all_digits(s.take(i)));
        lemma_decimal_value_nonneg(s.take(i));
        lemma_decimal_value_prefix(s, i + 1);
    }
}

/// Parse a response body as the decimal rendering of one unsigned byte:
/// one or more ASCII digits whose value is at most 255, and nothing else.
/// Anything else is a malformed response.
pub fn parse_byte(s: &[u8]) -> (r: Result<u8, CmpError>)
    ensures
        r is Ok <==> (s@.len() > 0 && all_digits(s@) && decimal_value(s@) <= 255),
        r is Ok ==> r->Ok_0 == decimal_value(s@),
        r is Err ==> r == Err::<u8, CmpError>(CmpError::OracleMalformedResponse),
{
    if s.len() == 0 {
        return Err(CmpError::OracleMalformedResponse);
    }
    let mut acc: u16 = 0;
    let mut i: usize = 0;
    while i < s.len()
        invariant
            0 <= i <= s@.len(),
            all_digits(s@.take(i as int)),
            acc == decimal_value(s@.take(i as int)),
            acc <= 255,
        decreases s@.len() - i,
    {
        let b = s[i];
        if b < 48 || b > 57 {
            return Err(CmpError::OracleMalformedResponse);
        }
        let digit: u16 = (b - 48) as u16;
        let next: u16 = acc * 10 + digit;
        proof {
            assert(s@.take(i + 1).drop_last() =~= s@.take(i as int));
            assert(s@.take(i + 1).last() == s@[i as int]);
        }
        if next > 255 {
            proof {
                if all_digits(s@) {
                    lemma_decimal_value_prefix(s@, i + 1);
                }
            }
            return Err(CmpError::OracleMalformedResponse);
        }
        acc = next;
        i = i + 1;
    }
    proof {
        assert(s@.take(s@.len() as int) =~= s@);
    }
    Ok(acc as u8)
}

} // verus!
