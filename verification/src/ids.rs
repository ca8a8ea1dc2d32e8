//! Identifiers.
//!
//! Users, projects, images, roles and permissions are named by 128-bit
//! identifiers. The library holds one as a `u128` and leaves its text form,
//! and the reading of that text, to the `uuid` crate.
use vstd::prelude::*;
use crate::text::digit_char;

verus! {

/// The character of a hexadecimal digit, in lower case.
pub open spec fn hex_char(v: nat) -> char
    recommends
        v < 16,
{
    if v < 10 {
        digit_char(v)
    } else {
        (('a' as u8) + (v - 10)) as char
    }
}

/// The hexadecimal digit of `id` at place `k`, counted from the most
/// significant of its thirty-two.
pub open spec fn nibble(id: u128, k: nat) -> nat
    recommends
        k < 32,
{
    ((id >> ((4 * (31 - k)) as u128)) & 0xf) as nat
}

/// The digits of `id` at the places `from..to`.
pub open spec fn hex_run(id: u128, from: nat, to: nat) -> Seq<char>
    recommends
        from <= to <= 32,
{
    Seq::new((to - from) as nat, |i: int| hex_char(nibble(id, (from + i) as nat)))
}

/// The text of `id`: thirty-two lower-case hexadecimal digits, most
/// significant first, in groups of 8, 4, 4, 4 and 12 with a hyphen between
/// them.
pub open spec fn hyphenated(id: u128) -> Seq<char> {
    hex_run(id, 0, 8) + seq!['-'] + hex_run(id, 8, 12) + seq!['-'] + hex_run(id, 12, 16)
        + seq!['-'] + hex_run(id, 16, 20) + seq!['-'] + hex_run(id, 20, 32)
}

/// What `uuid::Uuid::parse_str` makes of a text: the identifier that it
/// reads, or nothing where it refuses the text.
pub uninterp spec fn parsed_uuid(text: Seq<char>) -> Option<u128>;

/// The error of the `uuid` crate's parser.
#[verifier::external_type_specification]
#[verifier::external_body]
pub struct ExUuidError(uuid::Error);

/// `uuid::Uuid::from_u128` followed by the identifier's `Display`, which
/// writes the hyphenated lower-case form. Trusted: the text is
/// `hyphenated(id)`.
#[verifier::external_body]
pub(crate) fn uuid_text(id: u128) -> (text: String)
    ensures
        text@ == hyphenated(id),
{
    uuid::Uuid::from_u128(id).to_string()
}

/// `uuid::Uuid::parse_str`, the identifier handed out as a `u128`. Trusted:
/// the outcome is a function of the text alone, named `parsed_uuid`.
#[verifier::external_body]
pub(crate) fn parse_uuid(text: &str) -> (r: Result<u128, uuid::Error>)
    ensures
        r is Ok <==> parsed_uuid(text@) is Some,
        r matches Ok(id) ==> parsed_uuid(text@) == Some(id),
{
    uuid::Uuid::parse_str(text).map(|id| id.as_u128())
}

/// The `Display` of a `uuid::Error`. Nothing is claimed of the message.
#[verifier::external_body]
pub(crate) fn uuid_error_text(error: &uuid::Error) -> (text: String) {
    error.to_string()
}

/// A text that does not name an identifier, with the parser's message.
#[derive(Debug, Clone, PartialEq, Eq)]
pub struct InvalidId {
    pub message: String,
}

/// Reads an identifier from its text.
///
/// Succeeds exactly on the texts that the `uuid` parser accepts, with the
/// identifier that it reads.
pub fn parse_id(text: &str) -> (r: Result<u128, InvalidId>)
    ensures
        r is Ok <==> parsed_uuid(text@) is Some,
        r matches Ok(id) ==> parsed_uuid(text@) == Some(id),
{
    match parse_uuid(text) {
        Ok(id) => Ok(id),
        Err(error) => Err(InvalidId { message: uuid_error_text(&error) }),
    }
}

/// The text of an identifier.
pub fn id_text(id: u128) -> (text: String)
    ensures
        text@ == hyphenated(id),
        text@.len() == 36,
{
    uuid_text(id)
}

/// Where the digit at place `k` stands in the text.
pub open spec fn text_place(k: nat) -> int
    recommends
        k < 32,
{
    if k < 8 {
        k as int
    } else if k < 12 {
        k as int + 1
    } else if k < 16 {
        k as int + 2
    } else if k < 20 {
        k as int + 3
    } else {
        k as int + 4
    }
}

/// The text has thirty-six characters, and the digit at place `k` stands
/// at `text_place(k)`.
pub proof fn lemma_hyphenated_places(id: u128)
    ensures
        hyphenated(id).len() == 36,
        forall|k: nat| k < 32 ==> hyphenated(id)[text_place(k)] == hex_char(#[trigger] nibble(id, k)),
{
    assert forall|k: nat| k < 32 implies hyphenated(id)[text_place(k)] == hex_char(
        #[trigger] nibble(id, k),
    ) by {
        if k < 8 {
            assert(hex_run(id, 0, 8)[k as int] == hex_char(nibble(id, k)));
        } else if k < 12 {
            assert(hex_run(id, 8, 12)[k - 8] == hex_char(nibble(id, k)));
        } else if k < 16 {
            assert(hex_run(id, 12, 16)[k - 12] == hex_char(nibble(id, k)));
        } else if k < 20 {
            assert(hex_run(id, 16, 20)[k - 16] == hex_char(nibble(id, k)));
        } else {
            assert(hex_run(id, 20, 32)[k - 20] == hex_char(nibble(id, k)));
        }
    }
}

/// Two identifiers that agree above the digit at a place, and in that
/// digit, agree from that digit up.
proof fn lemma_digit_extends(a: u128, b: u128, shift: u128)
    requires
        shift <= 120,
        a >> ((shift + 4) as u128) == b >> ((shift + 4) as u128),
        (a >> shift) & 0xf == (b >> shift) & 0xf,
    ensures
        a >> shift == b >> shift,
{
    let above = (shift + 4) as u128;
    assert(a >> shift == b >> shift) by (bit_vector)
        requires
            shift <= 120,
            above == shift + 4,
            a >> above == b >> above,
            (a >> shift) & 0xf == (b >> shift) & 0xf,
    ;
}

/// Two identifiers that agree in their first `n` digits agree in all that
/// stands above the digits that follow.
proof fn lemma_digits_determine_prefix(a: u128, b: u128, n: nat)
    requires
        1 <= n <= 32,
        forall|k: nat| k < 32 ==> nibble(a, k) == nibble(b, k),
    ensures
        a >> ((4 * (32 - n)) as u128) == b >> ((4 * (32 - n)) as u128),
    decreases n,
{
    let shift = (4 * (32 - n)) as u128;
    let k = (n - 1) as nat;
    assert(nibble(a, k) == nibble(b, k));
    assert(((4 * (31 - k)) as u128) == shift);
    assert((a >> shift) & 0xf == (b >> shift) & 0xf);
    if n == 1 {
        assert(a >> 124 == b >> 124) by (bit_vector)
            requires
                (a >> 124) & 0xf == (b >> 124) & 0xf,
        ;
    } else {
        lemma_digits_determine_prefix(a, b, (n - 1) as nat);
        assert(((4 * (32 - (n - 1))) as u128) == shift + 4);
        lemma_digit_extends(a, b, shift);
    }
}

/// Two identifiers with the same text are the same identifier.
pub proof fn lemma_hyphenated_injective(a: u128, b: u128)
    requires
        hyphenated(a) == hyphenated(b),
    ensures
        a == b,
{
    lemma_hyphenated_places(a);
    lemma_hyphenated_places(b);
    assert forall|k: nat| k < 32 implies nibble(a, k) == nibble(b, k) by {
        let shift = (4 * (31 - k)) as u128;
        assert((a >> shift) & 0xf < 16) by (bit_vector);
        assert((b >> shift) & 0xf < 16) by (bit_vector);
        assert(hex_char(nibble(a, k)) == hex_char(nibble(b, k)));
    }
    lemma_digits_determine_prefix(a, b, 32);
    assert(a >> 0 == a) by (bit_vector);
    assert(b >> 0 == b) by (bit_vector);
}

} // verus!
