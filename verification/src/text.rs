//! Text on its way across the boundary, in both directions.
//!
//! Outbound, the engine takes a span of UTF-8 bytes with its length, and for
//! some calls needs the span to end in a null byte. `Text` is such a span.
//! Inbound, the engine hands out bytes in whatever encoding the platform uses;
//! they become owned strings, with what is not UTF-8 replaced.
use vstd::prelude::*;
use vstd::string::StringSliceAdditionalSpecFns;
use vstd::utf8::{decode_utf8, encode_utf8, valid_utf8};
use crate::error::Error;

verus! {

/// Whether a span of bytes holds a null byte.
pub open spec fn has_nul(bytes: Seq<u8>) -> bool {
    exists|i: int| 0 <= i < bytes.len() && bytes[i] == 0
}

/// A text made ready for the engine: its UTF-8 bytes, followed by one null
/// byte.
#[derive(Debug, PartialEq, Eq)]
pub struct Text {
    buf: Vec<u8>,
}

impl View for Text {
    type V = Seq<u8>;

    /// The bytes of the text, without the terminator.
    closed spec fn view(&self) -> Seq<u8> {
        self.buf@.drop_last()
    }
}

impl Text {
    #[verifier::type_invariant]
    spec fn terminated(self) -> bool {
        &&& self.buf@.len() >= 1
        &&& self.buf@.last() == 0
        &&& !has_nul(self.buf@.drop_last())
    }

    /// Marshals a text. A text with a null byte in it cannot be told from a
    /// shorter one once terminated, and is refused.
    pub fn new(s: &str) -> (r: Result<Text, Error>)
        ensures
            has_nul(s.spec_bytes()) <==> r is Err,
            r matches Err(e) ==> e == Error::InvalidInput,
            r matches Ok(t) ==> t@ == s.spec_bytes(),
    {
        let src = s.as_bytes();
        let mut buf: Vec<u8> = Vec::new();
        let mut i: usize = 0;
        while i < src.len()
            invariant
                i <= src@.len(),
                src@ == s.spec_bytes(),
                buf@ == src@.subrange(0, i as int),
                !has_nul(buf@),
            decreases src@.len() - i,
        {
            let b: u8 = src[i];
            if b == 0 {
                return Err(Error::InvalidInput);
            }
            buf.push(b);
            i += 1;
        }
        assert(buf@ == src@);
        buf.push(0);
        Ok(Text { buf })
    }

    /// The number of bytes of the text: its length in UTF-8, not in
    /// characters, and without the terminator.
    pub fn len(&self) -> (n: usize)
        ensures
            n == self@.len(),
    {
        proof {
            use_type_invariant(self);
        }
        self.buf.len() - 1
    }

    /// The buffer to point the engine at: the text and its terminator. No
    /// byte before the last is null.
    pub fn as_bytes_with_nul(&self) -> (b: &[u8])
        ensures
            b@ == self@.push(0),
            !has_nul(self@),
    {
        proof {
            use_type_invariant(self);
        }
        self.buf.as_slice()
    }
}

/// What the lossy conversion of std makes of a span of bytes: the text that
/// they encode, with each part that is not UTF-8 replaced by U+FFFD.
pub uninterp spec fn lossy_text(bytes: Seq<u8>) -> Seq<char>;

/// `String::from_utf8_lossy`, made owned. The result is the named lossy
/// conversion of the bytes; bytes that are valid UTF-8 come out as the text
/// they encode, unchanged.
#[verifier::external_body]
pub(crate) fn lossy(bytes: &[u8]) -> (r: String)
    ensures
        r@ == lossy_text(bytes@),
        valid_utf8(bytes@) ==> r@ == decode_utf8(bytes@),
{
    String::from_utf8_lossy(bytes).into_owned()
}

/// Copies text that the engine handed out into an owned string. Never fails:
/// what is not UTF-8 is replaced, not refused.
pub fn owned_text(bytes: &[u8]) -> (r: String)
    ensures
        r@ == lossy_text(bytes@),
        valid_utf8(bytes@) ==> r@ == decode_utf8(bytes@),
        valid_utf8(encode_utf8(r@)),
{
    let r = lossy(bytes);
    proof {
        vstd::utf8::encode_utf8_valid_utf8(r@);
    }
    r
}

/// The message that the engine supplied, or the given one where it supplied
/// none.
pub open spec fn message_or(supplied: Option<Seq<u8>>, fallback: Seq<char>) -> Seq<char> {
    match supplied {
        Some(bytes) => lossy_text(bytes),
        None => fallback,
    }
}

/// Every text encodes to valid UTF-8, and its bytes decode to the same text.
/// So what comes in from the engine is valid UTF-8 once it is owned, whatever
/// the bytes were; and a text that is marshalled out reads back in unchanged.
pub proof fn law_round_trip(chars: Seq<char>)
    ensures
        valid_utf8(encode_utf8(chars)),
        decode_utf8(encode_utf8(chars)) == chars,
{
    vstd::utf8::encode_utf8_valid_utf8(chars);
    vstd::utf8::encode_utf8_decode_utf8(chars);
}

} // verus!
