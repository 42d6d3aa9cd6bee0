//! Identifiers of paths and trips.

use vstd::prelude::*;

verus! {

/// A 128-bit identifier, held as the number that its sixteen bytes write,
/// first byte highest.
#[derive(Clone, Copy, Debug, PartialEq, Eq, Structural)]
pub struct Uuid {
    pub value: u128,
}

/// The bits of an identifier that say how it was made: its version and its
/// variant.
pub const KIND_MASK: u128 = 0x0000_0000_0000_f000_c000_0000_0000_0000;

/// What those bits hold in an identifier drawn at random: version 4, and
/// the variant of RFC 9562.
pub const RANDOM_KIND: u128 = 0x0000_0000_0000_4000_8000_0000_0000_0000;

/// The identifier that a text writes, if it writes one: 32 hexadecimal
/// digits, plain or grouped by hyphens, in braces or as a URN.
pub uninterp spec fn written_uuid(text: Seq<char>) -> Option<u128>;

/// `uuid::Uuid::parse_str`, with the identifier taken as a number by
/// `as_u128`. What the parser makes of a text depends on the text alone.
#[verifier::external_body]
fn parse_uuid(text: &str) -> (id: Option<u128>)
    ensures
        id == written_uuid(text@),
{
    uuid::Uuid::parse_str(text).ok().map(|id| id.as_u128())
}

/// `uuid::Uuid::new_v4`: an identifier drawn at random. Whatever is drawn,
/// the version and variant bits are those of a random identifier.
#[verifier::external_body]
fn random_uuid() -> (id: u128)
    ensures
        id & KIND_MASK == RANDOM_KIND,
{
    uuid::Uuid::new_v4().as_u128()
}

impl Uuid {
    /// Whether the identifier is marked as drawn at random.
    pub open spec fn random(self) -> bool {
        self.value & KIND_MASK == RANDOM_KIND
    }

    pub fn from_u128(value: u128) -> (id: Uuid)
        ensures
            id.value == value,
    {
        Uuid { value }
    }

    pub fn as_u128(&self) -> (value: u128)
        ensures
            value == self.value,
    {
        self.value
    }

    /// A new identifier.
    pub fn new_v4() -> (id: Uuid)
        ensures
            id.random(),
    {
        Uuid { value: random_uuid() }
    }

    /// Reads an identifier from a text.
    pub fn parse_str(text: &str) -> (id: Option<Uuid>)
        ensures
            id == Uuid::written(text@),
    {
        match parse_uuid(text) {
            Some(value) => Some(Uuid { value }),
            None => None,
        }
    }

    /// The identifier that a text writes.
    pub open spec fn written(text: Seq<char>) -> Option<Uuid> {
        match written_uuid(text) {
            Some(value) => Some(Uuid { value }),
            None => None,
        }
    }
}

} // verus!
