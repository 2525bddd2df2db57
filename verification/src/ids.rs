//! Identifiers are 128-bit values; their text form is the lowercase
//! hyphenated UUID notation (8-4-4-4-12 hex digits).

use vstd::prelude::*;
use vstd::arithmetic::div_mod::{lemma_div_denominator, lemma_fundamental_div_mod, lemma_multiply_divide_lt};

verus! {

/// `16^k`.
pub open spec fn pow16(k: nat) -> int
    decreases k,
{
    if k == 0 {
        1
    } else {
        16 * pow16((k - 1) as nat)
    }
}

/// The `k`-th hexadecimal digit of `v`, counting from the least significant one.
pub open spec fn nibble(v: int, k: nat) -> int {
    (v / pow16(k)) % 16
}

/// Lowercase hexadecimal digit for `0 <= d < 16`.
pub open spec fn hex_char(d: int) -> char {
    if d < 10 {
        (48 + d) as char
    } else {
        (87 + d) as char
    }
}

/// Positions of the four hyphens in the 36-character text.
pub open spec fn is_hyphen_pos(j: int) -> bool {
    j == 8 || j == 13 || j == 18 || j == 23
}

/// Index among the 32 hex digits of the character at position `j`.
pub open spec fn digit_index(j: int) -> int {
    if j < 8 {
        j
    } else if j < 13 {
        j - 1
    } else if j < 18 {
        j - 2
    } else if j < 23 {
        j - 3
    } else {
        j - 4
    }
}

/// The lowercase hyphenated text of an identifier, most significant digit first.
pub open spec fn uuid_text(id: u128) -> Seq<char> {
    Seq::new(
        36,
        |j: int|
            if is_hyphen_pos(j) {
                '-'
            } else {
                hex_char(nibble(id as int, (31 - digit_index(j)) as nat))
            },
    )
}

/// The text form of an identifier, as `uuid::Uuid` displays it.
///
/// Calls `Uuid::from_u128(id).to_string()`. The uuid crate displays a UUID
/// as its sixteen big-endian bytes in lowercase hex, with hyphens after the
/// 8th, 12th, 16th and 20th digit; the contract states exactly that text.
#[verifier::external_body]
pub(crate) fn uuid_string(id: u128) -> (s: String)
    ensures
        s@ == uuid_text(id),
{
    uuid::Uuid::from_u128(id).to_string()
}

proof fn lemma_pow16_pos(k: nat)
    ensures
        pow16(k) > 0,
    decreases k,
{
    if k > 0 {
        lemma_pow16_pos((k - 1) as nat);
    }
}

proof fn lemma_pow16_32()
    ensures
        pow16(32) == 0x1_0000_0000_0000_0000_0000_0000_0000_0000int,
{
    reveal_with_fuel(pow16, 33);
}

/// The digit above the lowest one of `v` is a digit of `v / 16`.
proof fn lemma_nibble_shift(v: int, k: nat)
    requires
        v >= 0,
    ensures
        nibble(v, k + 1) == nibble(v / 16, k),
{
    lemma_pow16_pos(k);
    lemma_div_denominator(v, 16, pow16(k));
    assert(pow16(k + 1) == 16 * pow16(k));
}

/// Two numbers below `16^n` with the same `n` lowest digits are equal.
proof fn lemma_digits_determine(a: int, b: int, n: nat)
    requires
        0 <= a < pow16(n),
        0 <= b < pow16(n),
        forall|k: nat| k < n ==> nibble(a, k) == nibble(b, k),
    ensures
        a == b,
    decreases n,
{
    if n > 0 {
        let m = (n - 1) as nat;
        lemma_pow16_pos(m);
        assert(pow16(n) == 16 * pow16(m));
        lemma_multiply_divide_lt(a, 16, pow16(m));
        lemma_multiply_divide_lt(b, 16, pow16(m));
        assert forall|k: nat| k < m implies #[trigger] nibble(a / 16, k) == nibble(b / 16, k) by {
            lemma_nibble_shift(a, k);
            lemma_nibble_shift(b, k);
            assert(nibble(a, k + 1) == nibble(b, k + 1));
        }
        lemma_digits_determine(a / 16, b / 16, m);
        assert(nibble(a, 0) == nibble(b, 0));
        assert(a / 1 == a && b / 1 == b);
        lemma_fundamental_div_mod(a, 16);
        lemma_fundamental_div_mod(b, 16);
    }
}

proof fn lemma_hex_char_injective(x: int, y: int)
    requires
        0 <= x < 16,
        0 <= y < 16,
        hex_char(x) == hex_char(y),
    ensures
        x == y,
{
    let cx: int = if x < 10 { 48 + x } else { 87 + x };
    let cy: int = if y < 10 { 48 + y } else { 87 + y };
    assert(hex_char(x) as int == cx);
    assert(hex_char(y) as int == cy);
}

/// Distinct identifiers have distinct text forms: the text determines the identifier.
pub proof fn lemma_uuid_text_injective(a: u128, b: u128)
    requires
        uuid_text(a) == uuid_text(b),
    ensures
        a == b,
{
    assert forall|k: nat| k < 32 implies nibble(a as int, k) == nibble(b as int, k) by {
        let d: int = 31 - k;
        let j: int = if d < 8 {
            d
        } else if d < 12 {
            d + 1
        } else if d < 16 {
            d + 2
        } else if d < 20 {
            d + 3
        } else {
            d + 4
        };
        assert(!is_hyphen_pos(j) && digit_index(j) == d);
        assert((31 - digit_index(j)) as nat == k);
        assert(uuid_text(a)[j] == hex_char(nibble(a as int, k)));
        assert(uuid_text(b)[j] == hex_char(nibble(b as int, k)));
        lemma_pow16_pos(k);
        lemma_hex_char_injective(nibble(a as int, k), nibble(b as int, k));
    }
    lemma_pow16_32();
    lemma_digits_determine(a as int, b as int, 32);
}

} // verus!
