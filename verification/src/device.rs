//! The identity of a device: a 128-bit number with a canonical text.
use vstd::prelude::*;

verus! {

/// `uuid::Error`, carried as it is.
#[verifier::external_type_specification]
#[verifier::external_body]
pub struct ExUuidError(uuid::Error);

/// The 128-bit identifier that names one client installation.
#[derive(Clone, Copy, Debug, PartialEq, Eq, Structural)]
pub struct DeviceToken {
    pub value: u128,
}

/// Why a text was not taken as a device token.
#[derive(Debug)]
pub enum DeviceTokenErr {
    /// The text is not a UUID in any of the accepted forms.
    Malformed(uuid::Error),
}

/// The sixteen hexadecimal digits, lower case.
pub open spec fn hex_digits() -> Seq<char> {
    seq!['0', '1', '2', '3', '4', '5', '6', '7', '8', '9', 'a', 'b', 'c', 'd', 'e', 'f']
}

/// The hexadecimal digit of `value` at `place`, counted from 0 at the most
/// significant of the 32.
pub open spec fn hex_place(value: u128, place: int) -> char {
    hex_digits()[((value as int) / vstd::arithmetic::power::pow(16, (31 - place) as nat)) % 16]
}

/// The number of hyphens that stand before position `at` of a canonical
/// text.
pub open spec fn hyphens_before(at: int) -> int {
    if at < 8 {
        0
    } else if at < 13 {
        1
    } else if at < 18 {
        2
    } else if at < 23 {
        3
    } else {
        4
    }
}

/// The canonical text of a device token: its 32 hexadecimal digits in lower
/// case, in groups of 8, 4, 4, 4 and 12 with a hyphen between them.
pub open spec fn canonical_text(value: u128) -> Seq<char> {
    Seq::new(
        36,
        |at: int|
            if at == 8 || at == 13 || at == 18 || at == 23 {
                '-'
            } else {
                hex_place(value, at - hyphens_before(at))
            },
    )
}

/// The number that the UUID parser reads from a text, where it accepts the
/// text.
pub uninterp spec fn uuid_of_text(text: Seq<char>) -> Option<u128>;

/// `uuid::Uuid::new_v4`, as a number: a random UUID, of which only the
/// version (4) and the variant (binary 10) are fixed.
#[verifier::external_body]
fn random_uuid() -> (value: u128)
    ensures
        (value >> 76) & 0xf == 4,
        (value >> 62) & 0x3 == 2,
{
    uuid::Uuid::new_v4().as_u128()
}

/// `uuid::Uuid::parse_str`, with the UUID as a number: a function of the
/// text alone.
#[verifier::external_body]
fn parse_uuid(text: &str) -> (parsed: Result<u128, uuid::Error>)
    ensures
        match parsed {
            Ok(value) => uuid_of_text(text@) == Some(value),
            Err(_) => uuid_of_text(text@) is None,
        },
{
    uuid::Uuid::parse_str(text).map(|id| id.as_u128())
}

/// `uuid::Uuid::from_u128` and the `Display` of the UUID: the canonical
/// text, which the parser reads back as the same number.
#[verifier::external_body]
fn format_uuid(value: u128) -> (text: String)
    ensures
        text@ == canonical_text(value),
        uuid_of_text(text@) == Some(value),
{
    uuid::Uuid::from_u128(value).to_string()
}

impl DeviceToken {
    /// A fresh random token.
    pub fn random() -> (token: DeviceToken)
        ensures
            (token.value >> 76) & 0xf == 4,
            (token.value >> 62) & 0x3 == 2,
    {
        DeviceToken { value: random_uuid() }
    }

    /// Reads a token from text. Succeeds exactly on the texts that the UUID
    /// parser accepts, the canonical text of every token among them.
    pub fn parse(text: &str) -> (parsed: Result<DeviceToken, DeviceTokenErr>)
        ensures
            match parsed {
                Ok(token) => uuid_of_text(text@) == Some(token.value),
                Err(_) => uuid_of_text(text@) is None,
            },
    {
        match parse_uuid(text) {
            Ok(value) => Ok(DeviceToken { value }),
            Err(reason) => Err(DeviceTokenErr::Malformed(reason)),
        }
    }

    /// The canonical text of the token, from which `parse` gives the token
    /// back.
    pub fn to_text(&self) -> (text: String)
        ensures
            text@ == canonical_text(self.value),
            uuid_of_text(text@) == Some(self.value),
    {
        format_uuid(self.value)
    }
}

} // verus!
