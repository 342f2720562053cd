use vstd::prelude::*;

verus! {

/// A version-4 UUID: version nibble 4 and variant bits `0b10`.
pub open spec fn is_uuid_v4(v: u128) -> bool {
    (v >> 76u128) & 0xfu128 == 4 && (v >> 62u128) & 0x3u128 == 2
}

/// The lower-case hexadecimal digit of `n < 16`.
pub open spec fn hex_digit(n: u128) -> char {
    seq!['0', '1', '2', '3', '4', '5', '6', '7', '8', '9', 'a', 'b', 'c', 'd', 'e', 'f'][n as int]
}

/// The `j`-th of the 32 hexadecimal digits of `v`, most significant first.
pub open spec fn nibble(v: u128, j: int) -> u128 {
    (v >> ((124 - 4 * j) as u128)) & 0xfu128
}

/// Positions of the hyphens in the 36-character form of a UUID.
pub open spec fn is_hyphen_position(i: int) -> bool {
    i == 8 || i == 13 || i == 18 || i == 23
}

/// Which of the 32 digits stands at position `i` of the hyphenated form.
pub open spec fn digit_at(i: int) -> int {
    if i < 8 {
        i
    } else if i < 13 {
        i - 1
    } else if i < 18 {
        i - 2
    } else if i < 23 {
        i - 3
    } else {
        i - 4
    }
}

/// The hyphenated lower-case text of the UUID with value `v`, as in
/// `67e55044-10b1-426f-9247-bb680e5fe0c8`.
pub open spec fn uuid_text(v: u128) -> Seq<char> {
    Seq::new(
        36,
        |i: int|
            if is_hyphen_position(i) {
                '-'
            } else {
                hex_digit(nibble(v, digit_at(i)))
            },
    )
}

/// Relies on uuid::Uuid::new_v4 (read through `as_u128`): a random UUID whose
/// version and variant bits are those of version 4.
#[verifier::external_body]
pub(crate) fn random_uuid() -> (r: u128)
    ensures
        is_uuid_v4(r),
{
    uuid::Uuid::new_v4().as_u128()
}

/// Relies on uuid's `From<Uuid> for String` (the `Display` form): the
/// hyphenated lower-case text of the value.
#[verifier::external_body]
pub(crate) fn uuid_string(v: u128) -> (r: String)
    ensures
        r@ == uuid_text(v),
{
    uuid::Uuid::from_u128(v).into()
}

} // verus!
