//! Who may delete a paste.
//!
//! A reader proves an identity with a signed token whose value writes a
//! number in decimal. Whoever holds the identity that stored a paste may
//! delete it. A token that does not decode never stands in the way of
//! reading: it only leaves the reader without the right to delete.

use crate::error::Error;
use crate::text::opt_str_view;
use vstd::prelude::*;
use vstd::std_specs::iter::IteratorSpec;
use vstd::string::*;

verus! {

/// The ten decimal digits.
pub open spec fn is_digit(c: char) -> bool {
    '0' <= c <= '9'
}

/// The number that the digit `c` writes.
pub open spec fn digit_value(c: char) -> int {
    c as int - '0' as int
}

/// At least one character, and digits only.
pub open spec fn all_digits(s: Seq<char>) -> bool {
    &&& s.len() > 0
    &&& forall|i: int| 0 <= i < s.len() ==> is_digit(#[trigger] s[i])
}

/// The number that a string of digits writes in decimal.
pub open spec fn decimal_value(digits: Seq<char>) -> int
    decreases digits.len(),
{
    if digits.len() == 0 {
        0
    } else {
        10 * decimal_value(digits.drop_last()) + digit_value(digits.last())
    }
}

/// The integer that a token writes: digits, with `-` or `+` before them or
/// no sign at all. `None` where the token is not of that form.
pub open spec fn signed_value(token: Seq<char>) -> Option<int> {
    if token.len() > 0 && token[0] == '-' {
        if all_digits(token.skip(1)) {
            Some(-decimal_value(token.skip(1)))
        } else {
            None
        }
    } else if token.len() > 0 && token[0] == '+' {
        if all_digits(token.skip(1)) {
            Some(decimal_value(token.skip(1)))
        } else {
            None
        }
    } else if all_digits(token) {
        Some(decimal_value(token))
    } else {
        None
    }
}

/// The identity that a token decodes to: the integer it writes, where that
/// is one that an identity can be.
pub open spec fn decoded_identity(token: Seq<char>) -> Option<i64> {
    match signed_value(token) {
        Some(v) => if i64::MIN <= v <= i64::MAX {
            Some(v as i64)
        } else {
            None
        },
        None => None,
    }
}

/// Whether the holder of `token` may delete a paste stored by `owner`:
/// the token is there, decodes, and the paste has an owner with exactly
/// the decoded identity.
pub open spec fn may_delete(token: Option<Seq<char>>, owner: Option<i64>) -> bool {
    match (token, owner) {
        (Some(t), Some(uid)) => decoded_identity(t) == Some(uid),
        _ => false,
    }
}

/// No magnitude above this one is an identity's, whatever the sign.
const LIMIT: i128 = 0x8000_0000_0000_0000;

/// A prefix of a string of digits writes a number that is not negative and
/// not above the number that the whole string writes.
proof fn lemma_prefix_value(digits: Seq<char>, k: int)
    requires
        0 <= k <= digits.len(),
        forall|i: int| 0 <= i < digits.len() ==> is_digit(#[trigger] digits[i]),
    ensures
        0 <= decimal_value(digits.take(k)) <= decimal_value(digits),
    decreases digits.len() - k,
{
    lemma_value_not_negative(digits.take(k));
    if k == digits.len() {
        assert(digits.take(k) =~= digits);
    } else {
        lemma_value_step(digits, k);
        lemma_prefix_value(digits, k + 1);
    }
}

/// Digits write no negative number.
proof fn lemma_value_not_negative(digits: Seq<char>)
    requires
        forall|i: int| 0 <= i < digits.len() ==> is_digit(#[trigger] digits[i]),
    ensures
        0 <= decimal_value(digits),
    decreases digits.len(),
{
    if digits.len() > 0 {
        lemma_value_not_negative(digits.drop_last());
    }
}

/// One more digit multiplies by ten and adds.
proof fn lemma_value_step(digits: Seq<char>, k: int)
    requires
        0 <= k < digits.len(),
    ensures
        decimal_value(digits.take(k + 1)) == 10 * decimal_value(digits.take(k)) + digit_value(
            digits[k],
        ),
{
    assert(digits.take(k + 1).drop_last() =~= digits.take(k));
}

/// The number that `digits` writes, where it is digits only and the number
/// is no greater than `LIMIT`.
fn magnitude(digits: &str) -> (m: Option<i128>)
    ensures
        match m {
            Some(v) => all_digits(digits@) && v == decimal_value(digits@) && 0 <= v <= LIMIT,
            None => !all_digits(digits@) || decimal_value(digits@) > LIMIT,
        },
{
    broadcast use vstd::string::group_string_axioms;

    let n = digits.unicode_len();
    if n == 0 {
        return None;
    }
    let mut rest = digits.chars();
    let mut i: usize = 0;
    let mut value: i128 = 0;
    while i < n
        invariant
            i <= n,
            n == digits@.len(),
            rest.obeys_prophetic_iter_laws(),
            rest.remaining() == digits@.skip(i as int),
            forall|j: int| 0 <= j < i ==> is_digit(#[trigger] digits@[j]),
            value == decimal_value(digits@.take(i as int)),
            0 <= value <= LIMIT,
        decreases n - i,
    {
        let c = match rest.next() {
            Some(c) => c,
            None => {
                return None;
            },
        };
        if !('0' <= c && c <= '9') {
            return None;
        }
        proof {
            lemma_value_step(digits@, i as int);
        }
        value = 10 * value + (c as u8 - '0' as u8) as i128;
        i += 1;
        if value > LIMIT {
            proof {
                if all_digits(digits@) {
                    lemma_prefix_value(digits@, i as int);
                }
            }
            return None;
        }
    }
    Some(value)
}

/// Decodes an identity token.
pub fn decode_identity(token: &str) -> (r: Result<i64, Error>)
    ensures
        r == match decoded_identity(token@) {
            Some(uid) => Ok::<i64, Error>(uid),
            None => Err::<i64, Error>(Error::CookieDecodeFailure),
        },
{
    let n = token.unicode_len();
    if n == 0 {
        return Err(Error::CookieDecodeFailure);
    }
    let first = token.get_char(0);
    let negative = first == '-';
    let signed = negative || first == '+';
    let digits = if signed {
        token.substring_char(1, n)
    } else {
        token
    };
    match magnitude(digits) {
        None => Err(Error::CookieDecodeFailure),
        Some(m) => {
            if negative {
                Ok((-m) as i64)
            } else if m == LIMIT {
                Err(Error::CookieDecodeFailure)
            } else {
                Ok(m as i64)
            }
        },
    }
}

/// Whether the holder of `token` may delete a paste stored by `owner`.
///
/// A token that is absent or does not decode, and a paste without an owner,
/// all give `false`, never an error.
pub fn can_delete(token: Option<&str>, owner: Option<i64>) -> (allowed: bool)
    ensures
        allowed == may_delete(opt_str_view(token), owner),
        token is None ==> !allowed,
        owner is None ==> !allowed,
        token matches Some(t) && decoded_identity(t@) is None ==> !allowed,
        allowed ==> decoded_identity(token.unwrap()@) == owner,
{
    match (token, owner) {
        (Some(t), Some(uid)) => match decode_identity(t) {
            Ok(user) => user == uid,
            Err(_) => false,
        },
        _ => false,
    }
}

} // verus!
