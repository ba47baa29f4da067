use vstd::prelude::*;
use vstd::utf8::{decode_utf8, valid_utf8};

verus! {

/// Why the bytes of a selection were not accepted as text.
#[derive(Clone, Copy, Debug, PartialEq, Eq, Structural)]
pub enum DecodeError {
    /// The bytes are not valid UTF-8.
    InvalidUtf8,
    /// The bytes are UTF-8 but hold a NUL byte, which marks non-text content.
    ContainsNul,
}

/// True when some byte of `b` is NUL.
pub open spec fn has_nul(b: Seq<u8>) -> bool {
    exists|i: int| 0 <= i < b.len() && b[i] == 0u8
}

/// The text that a selection's bytes stand for, or why they stand for none.
pub open spec fn decode_spec(b: Seq<u8>) -> Result<Seq<char>, DecodeError> {
    if !valid_utf8(b) {
        Err(DecodeError::InvalidUtf8)
    } else if has_nul(b) {
        Err(DecodeError::ContainsNul)
    } else {
        Ok(decode_utf8(b))
    }
}

/// The characters of a decoding result, with its error kept.
pub open spec fn text_view(r: Result<String, DecodeError>) -> Result<Seq<char>, DecodeError> {
    match r {
        Ok(s) => Ok(s@),
        Err(e) => Err(e),
    }
}

/// Relies on `String::from_utf8`: it succeeds exactly on valid UTF-8, and the
/// string then holds the characters that the bytes encode.
#[verifier::external_body]
fn utf8_string(bytes: Vec<u8>) -> (r: Option<String>)
    ensures
        r.is_some() == valid_utf8(bytes@),
        r matches Some(s) ==> s@ == decode_utf8(bytes@),
{
    String::from_utf8(bytes).ok()
}

/// Whether the bytes hold a NUL byte.
pub fn contains_nul(bytes: &[u8]) -> (r: bool)
    ensures
        r == has_nul(bytes@),
{
    let mut i: usize = 0;
    while i < bytes.len()
        invariant
            0 <= i <= bytes@.len(),
            forall|j: int| 0 <= j < i ==> bytes@[j] != 0u8,
        decreases bytes@.len() - i,
    {
        if bytes[i] == 0u8 {
            return true;
        }
        i = i + 1;
    }
    false
}

/// Decodes the bytes read from a selection: valid UTF-8 with no NUL byte
/// becomes text; anything else is rejected, UTF-8 errors first.
pub fn decode_text(bytes: Vec<u8>) -> (r: Result<String, DecodeError>)
    ensures
        text_view(r) == decode_spec(bytes@),
{
    let nul = contains_nul(bytes.as_slice());
    match utf8_string(bytes) {
        None => Err(DecodeError::InvalidUtf8),
        Some(s) => {
            if nul {
                Err(DecodeError::ContainsNul)
            } else {
                Ok(s)
            }
        },
    }
}

} // verus!
