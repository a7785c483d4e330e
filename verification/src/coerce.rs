use vstd::prelude::*;
use vstd::string::*;

use crate::error::{ParseError, ParseErrorV};

verus! {

/// A decimal digit, `'0'` through `'9'`.
pub open spec fn is_dec_digit(c: char) -> bool {
    48 <= c as int && c as int <= 57
}

/// The numeric value of a decimal digit.
pub open spec fn dec_digit_val(c: char) -> nat
    recommends
        is_dec_digit(c),
{
    (c as int - 48) as nat
}

/// Every character of `s` is a decimal digit.
pub open spec fn all_dec_digits(s: Seq<char>) -> bool {
    forall|i: int| 0 <= i < s.len() ==> is_dec_digit(#[trigger] s[i])
}

/// The base-10 value of a digit string, most significant digit first.
pub open spec fn dec_val(s: Seq<char>) -> nat
    decreases s.len(),
{
    if s.len() == 0 {
        0
    } else {
        dec_val(s.drop_last()) * 10 + dec_digit_val(s.last())
    }
}

/// The text is a well-formed optional-integer cell: empty (no record held),
/// or all decimal digits with a value in the unsigned 32-bit range.
pub open spec fn int_cell_ok(s: Seq<char>) -> bool {
    s.len() == 0 || (all_dec_digits(s) && dec_val(s) <= u32::MAX)
}

/// What a well-formed optional-integer cell denotes: absent when empty,
/// otherwise its decimal value.
pub open spec fn coerce_int_spec(s: Seq<char>) -> Option<u32>
    recommends
        int_cell_ok(s),
{
    if s.len() == 0 {
        None
    } else {
        Some(dec_val(s) as u32)
    }
}

/// What an optional-text cell denotes: absent when empty, otherwise the
/// text itself, verbatim.
pub open spec fn coerce_time_spec(s: Seq<char>) -> Option<Seq<char>> {
    if s.len() == 0 {
        None
    } else {
        Some(s)
    }
}

/// Extending a digit string never lowers its value: the value of a prefix
/// is at most the value of the whole.
proof fn lemma_dec_val_prefix(s: Seq<char>, k: int)
    requires
        0 <= k <= s.len(),
    ensures
        dec_val(s.take(k)) <= dec_val(s),
    decreases s.len() - k,
{
    if k == s.len() {
        assert(s.take(k) =~= s);
    } else {
        assert(s.take(k + 1).drop_last() =~= s.take(k));
        assert(dec_val(s.take(k + 1)) == dec_val(s.take(k)) * 10 + dec_digit_val(s.take(k + 1).last()));
        lemma_dec_val_prefix(s, k + 1);
    }
}

/// Coerce a cell's text into an optional opaque string: empty input means
/// the record is absent; anything else is kept verbatim.
pub fn parse_time(val: &str) -> (r: Option<String>)
    ensures
        r.deep_view() == coerce_time_spec(val@),
{
    if val.is_empty() {
        None
    } else {
        Some(val.to_owned())
    }
}

/// Coerce a cell's text into an optional unsigned 32-bit integer.
///
/// Empty text is the only legitimate "no record" signal and yields
/// `Ok(None)`. Non-empty text that is all decimal digits and within range
/// yields the value; any other non-empty text (including out-of-range
/// digit strings) is a malformed field, reported with the text verbatim.
pub fn parse_int(val: &str) -> (r: Result<Option<u32>, ParseError>)
    ensures
        r matches Ok(v) ==> int_cell_ok(val@) && v == coerce_int_spec(val@),
        r matches Err(e) ==> !int_cell_ok(val@) && e@ == (ParseErrorV::MalformedInt { raw: val@ }),
{
    let n = val.unicode_len();
    if n == 0 {
        return Ok(None);
    }
    let mut acc: u64 = 0;
    let mut i: usize = 0;
    while i < n
        invariant
            0 <= i <= n,
            n == val@.len(),
            all_dec_digits(val@.take(i as int)),
            acc == dec_val(val@.take(i as int)),
            acc <= u32::MAX,
        decreases n - i,
    {
        let c = val.get_char(i);
        let d = c as u64;
        if d < 48 || d > 57 {
            proof {
                assert(!is_dec_digit(val@[i as int]));
            }
            return Err(ParseError::MalformedInt { raw: val.to_owned() });
        }
        let digit = d - 48;
        let next = acc * 10 + digit;
        proof {
            assert(val@.take(i + 1).drop_last() =~= val@.take(i as int));
            assert(val@.take(i + 1).last() == val@[i as int]);
            assert(next == dec_val(val@.take(i + 1)));
        }
        if next > u32::MAX as u64 {
            proof {
                lemma_dec_val_prefix(val@, i + 1);
            }
            return Err(ParseError::MalformedInt { raw: val.to_owned() });
        }
        acc = next;
        i = i + 1;
    }
    proof {
        assert(val@.take(n as int) =~= val@);
    }
    Ok(Some(acc as u32))
}

} // verus!
