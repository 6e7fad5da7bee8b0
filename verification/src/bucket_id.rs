//! The names of storage buckets: random UUIDs in hyphenated notation.

use vstd::prelude::*;

verus! {

/// A number without its last `count` hexadecimal digits.
pub open spec fn without_digits(value: nat, count: nat) -> nat
    decreases count,
{
    if count == 0 {
        value
    } else {
        without_digits(value / 16, (count - 1) as nat)
    }
}

/// The hexadecimal digit of a 128-bit number at a place, counted from the most significant.
pub open spec fn hex_digit(value: u128, place: int) -> nat {
    without_digits(value as nat, (31 - place) as nat) % 16
}

/// The character of a hexadecimal digit.
pub open spec fn hex_char(digit: nat) -> char {
    if digit < 10 {
        crate::text::digit_char(digit)
    } else if digit == 10 {
        'a'
    } else if digit == 11 {
        'b'
    } else if digit == 12 {
        'c'
    } else if digit == 13 {
        'd'
    } else if digit == 14 {
        'e'
    } else {
        'f'
    }
}

/// Whether hyphenated notation has a hyphen at an index.
pub open spec fn is_hyphen(index: int) -> bool {
    index == 8 || index == 13 || index == 18 || index == 23
}

/// The place of the hexadecimal digit at an index of hyphenated notation.
pub open spec fn digit_place(index: int) -> int {
    if index < 8 {
        index
    } else if index < 13 {
        index - 1
    } else if index < 18 {
        index - 2
    } else if index < 23 {
        index - 3
    } else {
        index - 4
    }
}

/// The hyphenated notation of a UUID: 32 lower-case hexadecimal digits in groups of 8, 4, 4, 4
/// and 12.
pub open spec fn hyphenated(value: u128) -> Seq<char> {
    Seq::new(
        36,
        |index: int|
            if is_hyphen(index) {
                '-'
            } else {
                hex_char(hex_digit(value, digit_place(index)))
            },
    )
}

/// Whether a number has the version and variant digits of a random UUID.
pub open spec fn is_random_uuid(value: u128) -> bool {
    hex_digit(value, 12) == 4 && 8 <= hex_digit(value, 16) <= 11
}

/// Calls `uuid::Uuid::new_v4`, which draws a random UUID.
///
/// Claimed: the version digit is 4 and the variant digit is one of 8, 9, a and b. The other
/// digits are random, so nothing is said of them.
#[verifier::external_body]
pub(crate) fn random_uuid() -> (value: u128)
    ensures
        is_random_uuid(value),
{
    uuid::Uuid::new_v4().as_u128()
}

/// Calls `to_string` of `uuid::Uuid` on the UUID with the given bits.
///
/// Claimed: the text is the hyphenated notation.
#[verifier::external_body]
pub(crate) fn uuid_text(value: u128) -> (text: String)
    ensures
        text@ == hyphenated(value),
{
    uuid::Uuid::from_u128(value).to_string()
}

/// Different UUIDs have different notations.
pub proof fn law_notation_is_unique(left: u128, right: u128)
    requires
        hyphenated(left) == hyphenated(right),
    ensures
        left == right,
{
    assert forall|count: nat| count < 32 implies #[trigger] without_digits(left as nat, count) % 16
        == without_digits(right as nat, count) % 16 by {
        let place = 31 - count;
        let index: int = if place < 8 {
            place
        } else if place < 12 {
            place + 1
        } else if place < 16 {
            place + 2
        } else if place < 20 {
            place + 3
        } else {
            place + 4
        };
        assert(digit_place(index) == place);
        assert(hyphenated(left)[index] == hex_char(hex_digit(left, place)));
        assert(hyphenated(right)[index] == hex_char(hex_digit(right, place)));
    }
    lemma_small(32);
    lemma_digits_determine(left as nat, right as nat, 32);
}

/// The smallest number with more than `count` hexadecimal digits.
spec fn bound(count: nat) -> nat
    decreases count,
{
    if count == 0 {
        1
    } else {
        bound((count - 1) as nat) * 16
    }
}

proof fn lemma_small(count: nat)
    requires
        count == 32,
    ensures
        bound(count) == u128::MAX + 1,
{
    reveal_with_fuel(bound, 33);
}

proof fn lemma_digits_determine(left: nat, right: nat, count: nat)
    requires
        left < bound(count),
        right < bound(count),
        forall|k: nat|
            k < count ==> #[trigger] without_digits(left, k) % 16 == without_digits(right, k) % 16,
    ensures
        left == right,
    decreases count,
{
    if count > 0 {
        assert(without_digits(left, 0) % 16 == without_digits(right, 0) % 16);
        assert forall|k: nat| k < count - 1 implies #[trigger] without_digits(left / 16, k) % 16
            == without_digits(right / 16, k) % 16 by {
            assert(without_digits(left, k + 1) % 16 == without_digits(right, k + 1) % 16);
        }
        lemma_digits_determine(left / 16, right / 16, (count - 1) as nat);
    }
}

} // verus!
