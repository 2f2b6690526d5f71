//! Parsers for the two text inputs: tool diameter and flute count.
//!
//! The diameter field accepts an optional sign, an integer part and a
//! fractional part in millimetres (`"10.5"`, `"-3"`, `".5"`, `"8."`), with
//! at least one digit overall. The value is converted to micrometres;
//! fractional digits beyond the third carry no weight at that resolution
//! and are ignored. A value whose magnitude exceeds `DIAMETER_LIMIT_UM`,
//! or any other text (exponents included), parses to `None`.
//!
//! The flute-count field accepts an optional leading `+` and decimal digits
//! with a value of at most 255, exactly the inputs `u8` accepts.

use crate::units::DIAMETER_LIMIT_UM;
use vstd::prelude::*;
use vstd::slice::slice_subrange;

verus! {

/// ASCII `+`.
pub const PLUS: u8 = 43;

/// ASCII `-`.
pub const MINUS: u8 = 45;

/// ASCII `.`.
pub const DOT: u8 = 46;

/// Whether `c` is an ASCII decimal digit.
pub open spec fn is_ascii_digit(c: u8) -> bool {
    48 <= c <= 57
}

/// Whether every byte of `s` is an ASCII decimal digit.
pub open spec fn all_digits(s: Seq<u8>) -> bool {
    forall|i: int| 0 <= i < s.len() ==> is_ascii_digit(#[trigger] s[i])
}

/// The value of a string of decimal digits, most significant first.
pub open spec fn digits_value(s: Seq<u8>) -> int
    decreases s.len(),
{
    if s.len() == 0 {
        0
    } else {
        digits_value(s.drop_last()) * 10 + (s.last() - 48)
    }
}

/// The index of the first `.` at or after `i`, or the length when there is
/// none.
pub open spec fn dot_from(s: Seq<u8>, i: int) -> int
    decreases s.len() - i,
{
    if i < 0 || i >= s.len() {
        s.len() as int
    } else if s[i] == DOT {
        i
    } else {
        dot_from(s, i + 1)
    }
}

/// The fractional digits scaled to micrometres: the first three digits are
/// thousandths of a millimetre; further digits carry no weight at this
/// resolution.
pub open spec fn frac_scaled(fp: Seq<u8>) -> int {
    if fp.len() == 0 {
        0
    } else if fp.len() == 1 {
        digits_value(fp) * 100
    } else if fp.len() == 2 {
        digits_value(fp) * 10
    } else {
        digits_value(fp.take(3))
    }
}

/// The unsigned magnitude in micrometres of `s`, split at the first `.`;
/// `None` unless both parts are digits and at least one digit is present.
pub open spec fn parse_unsigned_um(s: Seq<u8>) -> Option<int> {
    let k = dot_from(s, 0);
    let ip = s.take(k);
    let fp = if k < s.len() {
        s.skip(k + 1)
    } else {
        Seq::<u8>::empty()
    };
    if ip.len() + fp.len() == 0 {
        None
    } else if !(all_digits(ip) && all_digits(fp)) {
        None
    } else {
        Some(digits_value(ip) * 1000 + frac_scaled(fp))
    }
}

/// The signed value in micrometres of `s`: an optional sign before the
/// unsigned magnitude.
pub open spec fn parse_decimal_um(s: Seq<u8>) -> Option<int> {
    if s.len() > 0 && s[0] == MINUS {
        match parse_unsigned_um(s.skip(1)) {
            Some(v) => Some(-v),
            None => None,
        }
    } else if s.len() > 0 && s[0] == PLUS {
        parse_unsigned_um(s.skip(1))
    } else {
        parse_unsigned_um(s)
    }
}

/// The committed diameter for a text input: its value in micrometres when
/// the text is a decimal within `DIAMETER_LIMIT_UM` magnitude, else `None`.
pub open spec fn parse_diameter_spec(s: Seq<u8>) -> Option<i64> {
    match parse_decimal_um(s) {
        Some(v) => if -DIAMETER_LIMIT_UM <= v <= DIAMETER_LIMIT_UM {
            Some(v as i64)
        } else {
            None
        },
        None => None,
    }
}

/// The committed flute count for a text input: the value of the digits
/// after an optional `+`, when it fits an 8-bit count, else `None`.
pub open spec fn parse_flute_spec(s: Seq<u8>) -> Option<u8> {
    let body = if s.len() > 0 && s[0] == PLUS {
        s.skip(1)
    } else {
        s
    };
    if body.len() == 0 {
        None
    } else if !all_digits(body) {
        None
    } else if digits_value(body) <= 255 {
        Some(digits_value(body) as u8)
    } else {
        None
    }
}

/// Ten to the `n`th power.
spec fn pow10(n: nat) -> int
    decreases n,
{
    if n == 0 {
        1
    } else {
        10 * pow10((n - 1) as nat)
    }
}

/// Dropping the last byte of a digit string leaves a digit string.
proof fn lemma_all_digits_drop_last(s: Seq<u8>)
    requires
        all_digits(s),
        s.len() > 0,
    ensures
        all_digits(s.drop_last()),
{
    assert forall|i: int| 0 <= i < s.drop_last().len() implies is_ascii_digit(
        #[trigger] s.drop_last()[i],
    ) by {
        assert(s.drop_last()[i] == s[i]);
    }
}

/// A prefix of a digit string is a digit string.
proof fn lemma_all_digits_take(s: Seq<u8>, i: int)
    requires
        all_digits(s),
        0 <= i <= s.len(),
    ensures
        all_digits(s.take(i)),
{
    assert forall|j: int| 0 <= j < s.take(i).len() implies is_ascii_digit(
        #[trigger] s.take(i)[j],
    ) by {
        assert(s.take(i)[j] == s[j]);
    }
}

/// A digit string's value is non-negative.
proof fn lemma_digits_value_nonneg(s: Seq<u8>)
    requires
        all_digits(s),
    ensures
        digits_value(s) >= 0,
    decreases s.len(),
{
    if s.len() > 0 {
        lemma_all_digits_drop_last(s);
        lemma_digits_value_nonneg(s.drop_last());
    }
}

/// A digit string's value is below ten to its length.
proof fn lemma_digits_value_upper(s: Seq<u8>)
    requires
        all_digits(s),
    ensures
        digits_value(s) < pow10(s.len()),
    decreases s.len(),
{
    if s.len() > 0 {
        lemma_all_digits_drop_last(s);
        lemma_digits_value_upper(s.drop_last());
        lemma_digits_value_nonneg(s.drop_last());
    }
}

/// Extending a digit prefix by one byte shifts its value one decimal place.
proof fn lemma_digits_value_step(s: Seq<u8>, i: int)
    requires
        0 <= i < s.len(),
    ensures
        digits_value(s.take(i + 1)) == digits_value(s.take(i)) * 10 + (s[i] - 48),
{
    assert(s.take(i + 1).drop_last() =~= s.take(i));
    assert(s.take(i + 1).last() == s[i]);
}

/// A digit string's value is at least the value of any of its prefixes.
proof fn lemma_digits_prefix_le(s: Seq<u8>, i: int)
    requires
        all_digits(s),
        0 <= i <= s.len(),
    ensures
        digits_value(s.take(i)) <= digits_value(s),
    decreases s.len(),
{
    if i == s.len() {
        assert(s.take(i) =~= s);
    } else {
        let s2 = s.drop_last();
        lemma_all_digits_drop_last(s);
        assert(s.take(i) =~= s2.take(i));
        lemma_digits_prefix_le(s2, i);
        lemma_digits_value_nonneg(s2);
    }
}

/// The scaled fraction of a digit string lies in `[0, 999]`.
proof fn lemma_frac_scaled_bounds(fp: Seq<u8>)
    requires
        all_digits(fp),
    ensures
        0 <= frac_scaled(fp) <= 999,
{
    assert(pow10(0) == 1 && pow10(1) == 10 && pow10(2) == 100 && pow10(3) == 1000) by {
        reveal_with_fuel(pow10, 4);
    }
    if fp.len() == 0 {
    } else if fp.len() <= 2 {
        lemma_digits_value_nonneg(fp);
        lemma_digits_value_upper(fp);
    } else {
        lemma_all_digits_take(fp, 3);
        lemma_digits_value_nonneg(fp.take(3));
        lemma_digits_value_upper(fp.take(3));
    }
}

/// The index of the first `.` in `s`, or `s.len()` when there is none.
fn find_dot(s: &[u8]) -> (k: usize)
    ensures
        k as int == dot_from(s@, 0),
        k <= s@.len(),
{
    let mut k: usize = 0;
    while k < s.len()
        invariant
            0 <= k <= s@.len(),
            dot_from(s@, 0) == dot_from(s@, k as int),
        decreases s@.len() - k,
    {
        if s[k] == DOT {
            return k;
        }
        k = k + 1;
    }
    k
}

/// Checks that every byte of `s` is an ASCII decimal digit.
fn check_all_digits(s: &[u8]) -> (ok: bool)
    ensures
        ok == all_digits(s@),
{
    let mut idx: usize = 0;
    while idx < s.len()
        invariant
            0 <= idx <= s@.len(),
            forall|j: int| 0 <= j < idx ==> is_ascii_digit(#[trigger] s@[j]),
        decreases s@.len() - idx,
    {
        let c = s[idx];
        if c < 48 || c > 57 {
            proof {
                assert(!is_ascii_digit(s@[idx as int]));
            }
            return false;
        }
        idx = idx + 1;
    }
    true
}

/// Parses a diameter text input to micrometres; see `parse_diameter_spec`.
#[verifier::loop_isolation(false)]
#[verifier::rlimit(50)]
pub fn parse_diameter(text: &[u8]) -> (r: Option<i64>)
    ensures
        r == parse_diameter_spec(text@),
{
    let negative = text.len() > 0 && text[0] == MINUS;
    let start: usize = if text.len() > 0 && (text[0] == MINUS || text[0] == PLUS) {
        1
    } else {
        0
    };
    let body = slice_subrange(text, start, text.len());
    let k = find_dot(body);
    let ip = slice_subrange(body, 0, k);
    let fp = if k < body.len() {
        slice_subrange(body, k + 1, body.len())
    } else {
        slice_subrange(body, body.len(), body.len())
    };
    proof {
        assert(body@ =~= if start == 1 {
            text@.skip(1)
        } else {
            text@
        });
        assert(ip@ =~= body@.take(k as int));
        if k < body@.len() {
            assert(fp@ =~= body@.skip(k as int + 1));
        } else {
            assert(fp@ =~= Seq::<u8>::empty());
        }
    }
    if ip.len() == 0 && fp.len() == 0 {
        return None;
    }
    if !check_all_digits(ip) {
        return None;
    }
    if !check_all_digits(fp) {
        return None;
    }
    // Integer part, in whole millimetres.
    let mut acc: i64 = 0;
    let mut idx: usize = 0;
    while idx < ip.len()
        invariant
            0 <= idx <= ip@.len(),
            all_digits(ip@),
            all_digits(fp@),
            acc == digits_value(ip@.take(idx as int)),
            0 <= acc <= 1_000_009,
        decreases ip@.len() - idx,
    {
        if acc > 100_000 {
            // The magnitude already exceeds the representable range, and
            // appending digits can only grow it.
            proof {
                lemma_digits_prefix_le(ip@, idx as int);
                lemma_digits_value_nonneg(ip@);
                lemma_frac_scaled_bounds(fp@);
            }
            return None;
        }
        let c = ip[idx];
        proof {
            lemma_digits_value_step(ip@, idx as int);
        }
        acc = acc * 10 + ((c - 48) as i64);
        idx = idx + 1;
    }
    proof {
        assert(ip@.take(ip@.len() as int) =~= ip@);
        lemma_frac_scaled_bounds(fp@);
    }
    // Fractional part, in micrometres.
    let nfrac: usize = if fp.len() > 3 {
        3
    } else {
        fp.len()
    };
    let mut frac: i64 = 0;
    idx = 0;
    while idx < nfrac
        invariant
            0 <= idx <= nfrac,
            nfrac <= fp@.len(),
            nfrac <= 3,
            all_digits(fp@),
            frac == digits_value(fp@.take(idx as int)),
            0 <= frac <= 999,
        decreases nfrac - idx,
    {
        let c = fp[idx];
        proof {
            lemma_digits_value_step(fp@, idx as int);
            lemma_all_digits_take(fp@, idx as int);
            lemma_digits_value_nonneg(fp@.take(idx as int));
            lemma_digits_value_upper(fp@.take(idx as int));
            assert(pow10(0) == 1 && pow10(1) == 10 && pow10(2) == 100) by {
                reveal_with_fuel(pow10, 3);
            }
        }
        frac = frac * 10 + ((c - 48) as i64);
        idx = idx + 1;
    }
    let frac_um: i64 = if fp.len() == 1 {
        frac * 100
    } else if fp.len() == 2 {
        frac * 10
    } else {
        frac
    };
    proof {
        if fp@.len() >= 3 {
            assert(fp@.take(3) =~= fp@.take(nfrac as int));
        } else {
            assert(fp@.take(fp@.len() as int) =~= fp@);
        }
        assert(frac_um == frac_scaled(fp@));
        lemma_frac_scaled_bounds(fp@);
    }
    let magnitude = acc * 1000 + frac_um;
    if magnitude > DIAMETER_LIMIT_UM {
        return None;
    }
    if negative {
        Some(-magnitude)
    } else {
        Some(magnitude)
    }
}

/// Parses a flute-count text input; see `parse_flute_spec`.
#[verifier::loop_isolation(false)]
pub fn parse_flute_count(text: &[u8]) -> (r: Option<u8>)
    ensures
        r == parse_flute_spec(text@),
{
    let start: usize = if text.len() > 0 && text[0] == PLUS {
        1
    } else {
        0
    };
    let body = slice_subrange(text, start, text.len());
    proof {
        assert(body@ =~= if start == 1 {
            text@.skip(1)
        } else {
            text@
        });
    }
    if body.len() == 0 {
        return None;
    }
    if !check_all_digits(body) {
        return None;
    }
    let mut acc: i64 = 0;
    let mut idx: usize = 0;
    while idx < body.len()
        invariant
            0 <= idx <= body@.len(),
            all_digits(body@),
            acc == digits_value(body@.take(idx as int)),
            0 <= acc <= 2559,
        decreases body@.len() - idx,
    {
        if acc > 255 {
            proof {
                lemma_digits_prefix_le(body@, idx as int);
            }
            return None;
        }
        let c = body[idx];
        proof {
            lemma_digits_value_step(body@, idx as int);
        }
        acc = acc * 10 + ((c - 48) as i64);
        idx = idx + 1;
    }
    proof {
        assert(body@.take(body@.len() as int) =~= body@);
    }
    if acc > 255 {
        return None;
    }
    Some(acc as u8)
}

} // verus!
