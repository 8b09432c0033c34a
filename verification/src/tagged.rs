//! Correlation identifiers: a payload paired with the identifier of the
//! request it belongs to.
//!
//! An identifier is a UUID, held as its 128-bit value. On the wire it is
//! written in the hyphenated form, in lower case.

use vstd::prelude::*;

verus! {

/// The hyphenated lower-case text of the UUID with value `id`: what the
/// `Display` impl of `uuid::Uuid` writes for it.
pub uninterp spec fn uuid_text(id: u128) -> Seq<char>;

/// The value of the UUID that a text denotes, or `None` where
/// `uuid::Uuid::parse_str` rejects the text.
pub uninterp spec fn uuid_parsed(text: Seq<char>) -> Option<u128>;

/// The value is that of a random (version 4) UUID: its version digit is 4
/// and its variant bits are `10`. The other 122 bits are free.
pub open spec fn is_random_identifier(id: u128) -> bool {
    &&& id / 0x1000_0000_0000_0000_0000 % 0x10 == 4
    &&& id / 0x4000_0000_0000_0000 % 4 == 2
}

/// Trusted: `Uuid::new_v4`. A fresh identifier: random bits, with the
/// version and the variant set as every version 4 UUID has them. Nothing
/// else is known of its value.
#[verifier::external_body]
fn fresh_identifier() -> (id: u128)
    ensures
        is_random_identifier(id),
{
    uuid::Uuid::new_v4().as_u128()
}

/// Trusted: `to_string` of `uuid::Uuid`, which writes the hyphenated
/// lower-case form. Parsing that text gives the identifier back.
#[verifier::external_body]
pub(crate) fn format_identifier(id: u128) -> (text: String)
    ensures
        text@ == uuid_text(id),
        uuid_parsed(text@) == Some(id),
{
    uuid::Uuid::from_u128(id).to_string()
}

/// Trusted: `Uuid::parse_str`. The result is the value of the UUID that the
/// text denotes, and `None` exactly where the text is rejected.
#[verifier::external_body]
pub(crate) fn parse_identifier(text: &str) -> (id: Option<u128>)
    ensures
        id == uuid_parsed(text@),
{
    match uuid::Uuid::parse_str(text) {
        Ok(parsed) => Some(parsed.as_u128()),
        Err(_) => None,
    }
}

/// A payload together with the identifier that links related packets.
#[derive(Debug, Clone)]
pub struct Tagged<T> {
    pub uuid: u128,
    pub inner: T,
}

impl<T> Tagged<T> {
    /// Copies the identifier and replaces the payload with `new_inner`.
    pub fn fork<U>(&self, new_inner: U) -> (forked: Tagged<U>)
        ensures
            forked.uuid == self.uuid,
            forked.inner == new_inner,
    {
        Tagged { uuid: self.uuid, inner: new_inner }
    }

    /// Wraps a payload under a brand new random identifier.
    pub fn new(inner: T) -> (tagged: Tagged<T>)
        ensures
            tagged.inner == inner,
            is_random_identifier(tagged.uuid),
    {
        Tagged { uuid: fresh_identifier(), inner }
    }

    /// The identifier as it is written on the wire.
    pub fn identifier(&self) -> (text: String)
        ensures
            text@ == uuid_text(self.uuid),
            uuid_parsed(text@) == Some(self.uuid),
    {
        format_identifier(self.uuid)
    }
}

impl<T> core::ops::Deref for Tagged<T> {
    type Target = T;

    fn deref(&self) -> (payload: &T)
        ensures
            *payload == self.inner,
    {
        &self.inner
    }
}

} // verus!
