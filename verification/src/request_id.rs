use vstd::arithmetic::power::pow;
use vstd::prelude::*;

verus! {

/// The lower-case hexadecimal digit of a value below sixteen.
pub open spec fn hex_digit(value: int) -> char {
    seq!['0', '1', '2', '3', '4', '5', '6', '7', '8', '9', 'a', 'b', 'c', 'd', 'e', 'f'][value]
}

/// The hexadecimal digits of a 128-bit number from position `from` up to
/// position `to`, the most significant digit being at position 0.
pub open spec fn hex_digits(id: u128, from: int, to: int) -> Seq<char> {
    Seq::new(
        (to - from) as nat,
        |i: int| hex_digit((id as int / pow(16, (31 - from - i) as nat)) % 16),
    )
}

/// The hyphenated form of a request id: its 32 lower-case hexadecimal digits
/// in groups of 8, 4, 4, 4 and 12.
pub open spec fn hyphenated(id: u128) -> Seq<char> {
    hex_digits(id, 0, 8) + seq!['-'] + hex_digits(id, 8, 12) + seq!['-'] + hex_digits(id, 12, 16)
        + seq!['-'] + hex_digits(id, 16, 20) + seq!['-'] + hex_digits(id, 20, 32)
}

/// What `uuid::Uuid::parse_str` makes of a text: the id it denotes, or
/// nothing where the text is in none of the forms the parser accepts.
pub uninterp spec fn uuid_text_value(text: Seq<char>) -> Option<u128>;

/// Whether a 128-bit number carries the marks of a random (version 4) id.
pub open spec fn is_random_id(id: u128) -> bool {
    id & 0x0000_0000_0000_f000_c000_0000_0000_0000u128
        == 0x0000_0000_0000_4000_8000_0000_0000_0000u128
}

/// Calls `uuid::Uuid::new_v4` and hands the id out as a number. The id is
/// random; the contract states only the version and variant bits that the
/// function sets in every id.
#[verifier::external_body]
fn mint_outside() -> (id: u128)
    ensures
        is_random_id(id),
{
    uuid::Uuid::new_v4().as_u128()
}

/// Calls `uuid::Uuid::parse_str`. The contract names the outcome, and states
/// of it what the crate documents: the hyphenated form is accepted and gives
/// back the id it was written from.
#[verifier::external_body]
fn parse_outside(text: &str) -> (r: Option<u128>)
    ensures
        r == uuid_text_value(text@),
        forall|id: u128| text@ == #[trigger] hyphenated(id) ==> r == Some(id),
{
    uuid::Uuid::parse_str(text).ok().map(|id| id.as_u128())
}

/// Calls `to_string` on the `Hyphenated` adapter of `uuid::Uuid`, which
/// writes the id's 32 lower-case hexadecimal digits with four hyphens.
#[verifier::external_body]
fn render_outside(id: u128) -> (text: String)
    ensures
        text@ == hyphenated(id),
{
    uuid::Uuid::from_u128(id).hyphenated().to_string()
}

/// Mints a fresh random request id.
pub fn mint_request_id() -> (id: u128)
    ensures
        is_random_id(id),
{
    mint_outside()
}

/// Reads a request id from its text. The hyphenated form of an id reads
/// back as that id.
pub fn parse_request_id(text: &str) -> (r: Option<u128>)
    ensures
        r == uuid_text_value(text@),
        forall|id: u128| text@ == #[trigger] hyphenated(id) ==> r == Some(id),
{
    parse_outside(text)
}

/// Writes a request id in hyphenated form.
pub fn render_request_id(id: u128) -> (text: String)
    ensures
        text@ == hyphenated(id),
{
    render_outside(id)
}

} // verus!
