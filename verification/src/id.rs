//! Identifiers of users, books and checkouts.
//!
//! An identifier is a UUID, held as the 128-bit number that the UUID stands
//! for. Two identifiers are equal exactly when their numbers are.

use crate::error::AppError;
use vstd::prelude::*;

verus! {

/// `uuid::Error`: why a text is no UUID. The library carries it through
/// and looks only at its text.
#[verifier::external_type_specification]
#[verifier::external_body]
pub struct ExUuidError(uuid::Error);

/// What `uuid::Uuid::parse_str` makes of a text: the number of the UUID it
/// reads, or `None` where it rejects the text.
pub uninterp spec fn uuid_parse_str(text: Seq<char>) -> Option<u128>;

/// The sixteen lower-case hexadecimal digits.
pub open spec fn hex_digits() -> Seq<char> {
    seq!['0', '1', '2', '3', '4', '5', '6', '7', '8', '9', 'a', 'b', 'c', 'd', 'e', 'f']
}

/// The four bits of `raw` that the digit at `position` of its simple form
/// shows; position 0 holds the most significant four.
pub open spec fn nibble_at(raw: u128, position: int) -> int {
    (raw as int / vstd::arithmetic::power2::pow2((4 * (31 - position)) as nat) as int) % 16
}

/// The simple form of a UUID: its 32 hexadecimal digits in lower case, most
/// significant first, without hyphens.
pub open spec fn simple_form(raw: u128) -> Seq<char> {
    Seq::new(32, |position: int| hex_digits()[nibble_at(raw, position)])
}

/// Whether the number is that of a random UUID: of version 4, in the
/// variant of RFC 9562. All other bits are free.
pub open spec fn is_random_uuid(raw: u128) -> bool {
    raw & 0xF000_C000_0000_0000_0000u128 == 0x4000_8000_0000_0000_0000u128
}

/// `uuid::Uuid::new_v4`: a random UUID, as its number. The contract claims
/// of the value only what marks every random UUID, its version and variant.
/// The call takes no argument; it ends the program where the operating
/// system has no random bytes to give.
#[verifier::external_body]
fn random_uuid() -> (raw: u128)
    ensures
        is_random_uuid(raw),
{
    uuid::Uuid::new_v4().as_u128()
}

/// `uuid::Uuid::parse_str`: reads a UUID in any of the textual forms that the
/// `uuid` crate accepts. The contract only names the outcome: it is
/// [`uuid_parse_str`] of the text, an error standing for `None`.
#[verifier::external_body]
fn parse_uuid(text: &str) -> (parsed: Result<u128, uuid::Error>)
    ensures
        match parsed {
            Ok(raw) => uuid_parse_str(text@) == Some(raw),
            Err(_) => uuid_parse_str(text@) is None,
        },
{
    uuid::Uuid::parse_str(text).map(|uuid| uuid.as_u128())
}

/// The `Display` text of a `uuid::Error`. Nothing is promised of it.
#[verifier::external_body]
fn describe_uuid_error(error: &uuid::Error) -> String {
    error.to_string()
}

/// `uuid::fmt::Simple::encode_lower` on the UUID with the given number: the
/// contract claims that it writes the 32 lower-case hexadecimal digits of the
/// number, most significant first.
#[verifier::external_body]
fn encode_simple(raw: u128) -> (text: String)
    ensures
        text@ == simple_form(raw),
{
    let mut buffer = uuid::Uuid::encode_buffer();
    uuid::Uuid::from_u128(raw).as_simple().encode_lower(&mut buffer).to_string()
}

/// Reads the number of a UUID from text; a text that is no UUID gives
/// `ConvertToUuidError`.
pub fn parse_raw(text: &str) -> (parsed: Result<u128, AppError>)
    ensures
        match parsed {
            Ok(raw) => uuid_parse_str(text@) == Some(raw),
            Err(e) => uuid_parse_str(text@) is None && e@ is ConvertToUuidError,
        },
{
    match parse_uuid(text) {
        Ok(raw) => Ok(raw),
        Err(e) => Err(AppError::ConvertToUuidError(describe_uuid_error(&e))),
    }
}

/// Identifies a user.
#[derive(Debug, Clone, Copy, PartialEq, Eq, Hash, Structural)]
pub struct UserId(pub u128);

/// Identifies a book.
#[derive(Debug, Clone, Copy, PartialEq, Eq, Hash, Structural)]
pub struct BookId(pub u128);

/// Identifies one loan of a book, from checkout to return.
#[derive(Debug, Clone, Copy, PartialEq, Eq, Hash, Structural)]
pub struct CheckoutId(pub u128);

impl Default for UserId {
    /// A fresh random identifier, as [`UserId::new`] gives it.
    fn default() -> (id: Self)
        ensures
            is_random_uuid(id.0),
    {
        UserId::new()
    }
}

impl UserId {
    /// A fresh random identifier.
    pub fn new() -> (id: Self)
        ensures
            is_random_uuid(id.0),
    {
        UserId(random_uuid())
    }

    /// The number of the UUID.
    pub fn raw(self) -> (raw: u128)
        ensures
            raw == self.0,
    {
        self.0
    }

    /// Reads an identifier from the text of a UUID.
    pub fn from_str(text: &str) -> (parsed: Result<Self, AppError>)
        ensures
            match parsed {
                Ok(id) => uuid_parse_str(text@) == Some(id.0),
                Err(e) => uuid_parse_str(text@) is None && e@ is ConvertToUuidError,
            },
    {
        match parse_raw(text) {
            Ok(raw) => Ok(UserId(raw)),
            Err(e) => Err(e),
        }
    }

    /// The identifier as 32 lower-case hexadecimal digits.
    pub fn to_string(&self) -> (text: String)
        ensures
            text@ == simple_form(self.0),
    {
        encode_simple(self.0)
    }
}

impl Default for BookId {
    /// A fresh random identifier, as [`BookId::new`] gives it.
    fn default() -> (id: Self)
        ensures
            is_random_uuid(id.0),
    {
        BookId::new()
    }
}

impl BookId {
    /// A fresh random identifier.
    pub fn new() -> (id: Self)
        ensures
            is_random_uuid(id.0),
    {
        BookId(random_uuid())
    }

    /// The number of the UUID.
    pub fn raw(self) -> (raw: u128)
        ensures
            raw == self.0,
    {
        self.0
    }

    /// Reads an identifier from the text of a UUID.
    pub fn from_str(text: &str) -> (parsed: Result<Self, AppError>)
        ensures
            match parsed {
                Ok(id) => uuid_parse_str(text@) == Some(id.0),
                Err(e) => uuid_parse_str(text@) is None && e@ is ConvertToUuidError,
            },
    {
        match parse_raw(text) {
            Ok(raw) => Ok(BookId(raw)),
            Err(e) => Err(e),
        }
    }

    /// The identifier as 32 lower-case hexadecimal digits.
    pub fn to_string(&self) -> (text: String)
        ensures
            text@ == simple_form(self.0),
    {
        encode_simple(self.0)
    }
}

impl Default for CheckoutId {
    /// A fresh random identifier, as [`CheckoutId::new`] gives it.
    fn default() -> (id: Self)
        ensures
            is_random_uuid(id.0),
    {
        CheckoutId::new()
    }
}

impl CheckoutId {
    /// A fresh random identifier.
    pub fn new() -> (id: Self)
        ensures
            is_random_uuid(id.0),
    {
        CheckoutId(random_uuid())
    }

    /// The number of the UUID.
    pub fn raw(self) -> (raw: u128)
        ensures
            raw == self.0,
    {
        self.0
    }

    /// Reads an identifier from the text of a UUID.
    pub fn from_str(text: &str) -> (parsed: Result<Self, AppError>)
        ensures
            match parsed {
                Ok(id) => uuid_parse_str(text@) == Some(id.0),
                Err(e) => uuid_parse_str(text@) is None && e@ is ConvertToUuidError,
            },
    {
        match parse_raw(text) {
            Ok(raw) => Ok(CheckoutId(raw)),
            Err(e) => Err(e),
        }
    }

    /// The identifier as 32 lower-case hexadecimal digits.
    pub fn to_string(&self) -> (text: String)
        ensures
            text@ == simple_form(self.0),
    {
        encode_simple(self.0)
    }
}

} // verus!
