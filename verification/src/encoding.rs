//! Base64 text as it travels inside messages.

use vstd::prelude::*;

verus! {

/// The standard, padded base64 text of a byte string: what `base64::encode`
/// returns for it.
pub uninterp spec fn base64_text(bytes: Seq<u8>) -> Seq<char>;

/// The bytes that a text decodes to under the standard, padded alphabet, or
/// `None` where `base64::decode` rejects the text.
pub uninterp spec fn base64_bytes(text: Seq<char>) -> Option<Seq<u8>>;

/// A text that is not valid base64.
#[derive(Debug, Clone, Copy, PartialEq, Eq, Structural)]
pub struct InvalidBase64;

/// Trusted: `base64::encode`. The result is the standard encoding of `buf`,
/// and decoding that text gives `buf` back. The call cannot overflow its size
/// computation, since a slice never holds more than `isize::MAX` bytes.
#[verifier::external_body]
fn encode_standard(buf: &[u8]) -> (text: String)
    ensures
        text@ == base64_text(buf@),
        base64_bytes(text@) == Some(buf@),
{
    base64::encode(buf)
}

/// Trusted: `base64::decode`. The result holds the decoded bytes, and is
/// `None` exactly for the texts that the decoder rejects.
#[verifier::external_body]
fn decode_standard(text: &str) -> (out: Option<Vec<u8>>)
    ensures
        match out {
            Some(bytes) => base64_bytes(text@) == Some(bytes@),
            None => base64_bytes(text@) is None,
        },
{
    base64::decode(text).ok()
}

/// A string of base64 text, with helpers to look inside.
#[derive(Debug, Clone)]
pub struct Base64Encoded(pub String);

impl View for Base64Encoded {
    type V = Seq<char>;

    /// The text itself.
    open spec fn view(&self) -> Seq<char> {
        self.0@
    }
}

impl Base64Encoded {
    /// The bytes this text stands for, if it is valid base64.
    pub open spec fn payload(&self) -> Option<Seq<u8>> {
        base64_bytes(self@)
    }

    /// Decodes the text into a fresh buffer.
    pub fn read_to_buffer(&self) -> (out: Result<Vec<u8>, InvalidBase64>)
        ensures
            match out {
                Ok(bytes) => self.payload() == Some(bytes@),
                Err(_) => self.payload() is None,
            },
    {
        match decode_standard(self.0.as_str()) {
            Some(bytes) => Ok(bytes),
            None => Err(InvalidBase64),
        }
    }

    /// Decodes the text and appends the bytes to `writer`. Nothing is written
    /// if the text is not valid base64.
    pub fn write_to(&self, writer: &mut Vec<u8>) -> (out: Result<(), InvalidBase64>)
        ensures
            match out {
                Ok(_) => self.payload() is Some && final(writer)@ == old(writer)@
                    + self.payload()->0,
                Err(_) => self.payload() is None && final(writer)@ == old(writer)@,
            },
    {
        match self.read_to_buffer() {
            Ok(bytes) => {
                writer.extend_from_slice(bytes.as_slice());
                Ok(())
            },
            Err(error) => Err(error),
        }
    }

    /// Encodes a buffer. The text decodes back to exactly `buf`.
    pub fn create(buf: &[u8]) -> (encoded: Base64Encoded)
        ensures
            encoded@ == base64_text(buf@),
            encoded.payload() == Some(buf@),
    {
        Base64Encoded(encode_standard(buf))
    }
}


} // verus!
