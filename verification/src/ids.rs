//! Identifiers: a UUID is held as the 128-bit number that it stands for.
use vstd::prelude::*;

verus! {

/// The character of a hexadecimal digit, in small letters.
pub open spec fn hex_char(d: u128) -> char {
    if d < 10 {
        (48 + d) as char
    } else {
        (87 + d) as char
    }
}

/// The `i`-th hexadecimal digit of a 128-bit number, from the most significant.
pub open spec fn nibble(id: u128, i: int) -> u128 {
    (id >> ((4 * (31 - i)) as u128)) & 0xf
}

/// The hyphenated form of a UUID: its 32 hexadecimal digits in groups of 8, 4, 4,
/// 4 and 12.
pub open spec fn hyphenated(id: u128) -> Seq<char> {
    Seq::new(
        36,
        |i: int|
            if i < 8 {
                hex_char(nibble(id, i))
            } else if i == 8 || i == 13 || i == 18 || i == 23 {
                '-'
            } else if i < 13 {
                hex_char(nibble(id, i - 1))
            } else if i < 18 {
                hex_char(nibble(id, i - 2))
            } else if i < 23 {
                hex_char(nibble(id, i - 3))
            } else {
                hex_char(nibble(id, i - 4))
            },
    )
}

proof fn hex_tells_apart(a: u128, b: u128)
    requires
        a < 16,
        b < 16,
        hex_char(a) == hex_char(b),
    ensures
        a == b,
{
}

proof fn nibble_is_small(id: u128, i: int)
    ensures
        nibble(id, i) < 16,
{
    let n = id >> ((4 * (31 - i)) as u128);
    assert(n & 0xf < 16) by (bit_vector);
}

/// Where a hexadecimal digit stands in the hyphenated form.
pub open spec fn digit_place(i: int) -> int {
    if i < 8 {
        i
    } else if i < 12 {
        i + 1
    } else if i < 16 {
        i + 2
    } else if i < 20 {
        i + 3
    } else {
        i + 4
    }
}

proof fn same_nibble(a: u128, b: u128, i: int)
    requires
        0 <= i < 32,
        hyphenated(a) == hyphenated(b),
    ensures
        nibble(a, i) == nibble(b, i),
{
    let k = digit_place(i);
    assert(hyphenated(a)[k] == hex_char(nibble(a, i)));
    assert(hyphenated(b)[k] == hex_char(nibble(b, i)));
    nibble_is_small(a, i);
    nibble_is_small(b, i);
    hex_tells_apart(nibble(a, i), nibble(b, i));
}

proof fn same_bits(a: u128, b: u128)
    by (bit_vector)
    requires
        (a >> 0u128) & 0xf == (b >> 0u128) & 0xf,
        (a >> 4u128) & 0xf == (b >> 4u128) & 0xf,
        (a >> 8u128) & 0xf == (b >> 8u128) & 0xf,
        (a >> 12u128) & 0xf == (b >> 12u128) & 0xf,
        (a >> 16u128) & 0xf == (b >> 16u128) & 0xf,
        (a >> 20u128) & 0xf == (b >> 20u128) & 0xf,
        (a >> 24u128) & 0xf == (b >> 24u128) & 0xf,
        (a >> 28u128) & 0xf == (b >> 28u128) & 0xf,
        (a >> 32u128) & 0xf == (b >> 32u128) & 0xf,
        (a >> 36u128) & 0xf == (b >> 36u128) & 0xf,
        (a >> 40u128) & 0xf == (b >> 40u128) & 0xf,
        (a >> 44u128) & 0xf == (b >> 44u128) & 0xf,
        (a >> 48u128) & 0xf == (b >> 48u128) & 0xf,
        (a >> 52u128) & 0xf == (b >> 52u128) & 0xf,
        (a >> 56u128) & 0xf == (b >> 56u128) & 0xf,
        (a >> 60u128) & 0xf == (b >> 60u128) & 0xf,
        (a >> 64u128) & 0xf == (b >> 64u128) & 0xf,
        (a >> 68u128) & 0xf == (b >> 68u128) & 0xf,
        (a >> 72u128) & 0xf == (b >> 72u128) & 0xf,
        (a >> 76u128) & 0xf == (b >> 76u128) & 0xf,
        (a >> 80u128) & 0xf == (b >> 80u128) & 0xf,
        (a >> 84u128) & 0xf == (b >> 84u128) & 0xf,
        (a >> 88u128) & 0xf == (b >> 88u128) & 0xf,
        (a >> 92u128) & 0xf == (b >> 92u128) & 0xf,
        (a >> 96u128) & 0xf == (b >> 96u128) & 0xf,
        (a >> 100u128) & 0xf == (b >> 100u128) & 0xf,
        (a >> 104u128) & 0xf == (b >> 104u128) & 0xf,
        (a >> 108u128) & 0xf == (b >> 108u128) & 0xf,
        (a >> 112u128) & 0xf == (b >> 112u128) & 0xf,
        (a >> 116u128) & 0xf == (b >> 116u128) & 0xf,
        (a >> 120u128) & 0xf == (b >> 120u128) & 0xf,
        (a >> 124u128) & 0xf == (b >> 124u128) & 0xf,
    ensures
        a == b,
{
}

/// Two UUIDs with one hyphenated form are the same.
pub proof fn hyphenated_tells_apart(a: u128, b: u128)
    requires
        hyphenated(a) == hyphenated(b),
    ensures
        a == b,
{
    same_nibble(a, b, 31);
    same_nibble(a, b, 30);
    same_nibble(a, b, 29);
    same_nibble(a, b, 28);
    same_nibble(a, b, 27);
    same_nibble(a, b, 26);
    same_nibble(a, b, 25);
    same_nibble(a, b, 24);
    same_nibble(a, b, 23);
    same_nibble(a, b, 22);
    same_nibble(a, b, 21);
    same_nibble(a, b, 20);
    same_nibble(a, b, 19);
    same_nibble(a, b, 18);
    same_nibble(a, b, 17);
    same_nibble(a, b, 16);
    same_nibble(a, b, 15);
    same_nibble(a, b, 14);
    same_nibble(a, b, 13);
    same_nibble(a, b, 12);
    same_nibble(a, b, 11);
    same_nibble(a, b, 10);
    same_nibble(a, b, 9);
    same_nibble(a, b, 8);
    same_nibble(a, b, 7);
    same_nibble(a, b, 6);
    same_nibble(a, b, 5);
    same_nibble(a, b, 4);
    same_nibble(a, b, 3);
    same_nibble(a, b, 2);
    same_nibble(a, b, 1);
    same_nibble(a, b, 0);
    same_bits(a, b);
}

/// The simple form of a UUID: its 32 hexadecimal digits.
pub open spec fn simple(id: u128) -> Seq<char> {
    Seq::new(32, |i: int| hex_char(nibble(id, i)))
}

/// `uuid::Uuid::to_string`: the hyphenated form, in small letters.
#[verifier::external_body]
pub(crate) fn uuid_text(id: u128) -> (r: String)
    ensures
        r@ == hyphenated(id),
{
    uuid::Uuid::from_u128(id).to_string()
}

/// Tells whether a UUID is of version 4, a random one, in the RFC's variant.
pub open spec fn is_v4(id: u128) -> bool {
    nibble(id, 12) == 4 && (nibble(id, 16) & 0xc) == 8
}

/// `uuid::Uuid::simple` and its `to_string`: the simple form, in small letters.
#[verifier::external_body]
pub(crate) fn simple_text(id: u128) -> (r: String)
    ensures
        r@ == simple(id),
{
    uuid::Uuid::from_u128(id).simple().to_string()
}

/// `uuid::Uuid::new_v4`: a random UUID. Of its bits only the version and the variant
/// are fixed. The crate gives up where the machine has no random bytes to give.
#[verifier::external_body]
pub(crate) fn new_v4() -> (r: u128)
    ensures
        is_v4(r),
{
    uuid::Uuid::new_v4().as_u128()
}

} // verus!
