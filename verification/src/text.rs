use crate::status::BuildError;
use vstd::prelude::*;
use vstd::utf8::{
    char_is_scalar, char_u32_cast, decode_utf8, encode_scalar, encode_utf8,
    encode_utf8_decode_utf8, valid_utf8,
};

verus! {

/// A string can be carried by a buffer that ends at its first terminator
/// exactly when none of its characters is the terminator, the character zero.
pub open spec fn representable(s: Seq<char>) -> bool {
    forall|i: int| 0 <= i < s.len() ==> s[i] != '\0'
}

/// No byte of the sequence is zero.
pub open spec fn no_zero_byte(bytes: Seq<u8>) -> bool {
    forall|i: int| 0 <= i < bytes.len() ==> bytes[i] != 0u8
}

/// The one byte of a one-byte encoding is zero exactly when the scalar is.
proof fn lemma_single_byte_is_the_scalar(c: u32)
    by (bit_vector)
    requires
        c <= 0x7F,
    ensures
        ((c & 0x7F) as u8 == 0u8) <==> c == 0u32,
{
}

/// The bytes of a longer encoding carry a marker in their high bits, so none
/// of them is zero.
proof fn lemma_marked_bytes_are_not_zero(c: u32)
    by (bit_vector)
    ensures
        0xC0u8 | ((c >> 6) & 0x1F) as u8 != 0u8,
        0xE0u8 | ((c >> 12) & 0x0F) as u8 != 0u8,
        0xF0u8 | ((c >> 18) & 0x7) as u8 != 0u8,
        0x80u8 | (c & 0x3F) as u8 != 0u8,
        0x80u8 | ((c >> 6) & 0x3F) as u8 != 0u8,
        0x80u8 | ((c >> 12) & 0x3F) as u8 != 0u8,
{
}

/// The encoding of one character holds a zero byte exactly when the
/// character is zero.
pub proof fn lemma_zero_byte_of_one_character(c: char)
    ensures
        no_zero_byte(encode_scalar(c as u32)) <==> c != '\0',
{
    let scalar = c as u32;
    let bytes = encode_scalar(scalar);
    char_is_scalar(c);
    char_u32_cast(c, scalar);
    char_u32_cast('\0', 0u32);
    lemma_marked_bytes_are_not_zero(scalar);
    if scalar <= 0x7F {
        lemma_single_byte_is_the_scalar(scalar);
        assert(bytes[0] == (scalar & 0x7F) as u8);
    }
}

/// The encoding of a string holds a zero byte exactly where the string holds
/// the character zero: scanning the bytes decides representability.
pub proof fn lemma_zero_bytes_are_zero_characters(s: Seq<char>)
    ensures
        no_zero_byte(encode_utf8(s)) <==> representable(s),
    decreases s.len(),
{
    if s.len() > 0 {
        let head = encode_scalar(s[0] as u32);
        let rest = s.drop_first();
        let tail = encode_utf8(rest);
        lemma_zero_byte_of_one_character(s[0]);
        lemma_zero_bytes_are_zero_characters(rest);
        assert(encode_utf8(s) == head + tail);
        if no_zero_byte(head + tail) {
            assert forall|i: int| 0 <= i < head.len() implies head[i] != 0u8 by {
                assert((head + tail)[i] == head[i]);
            }
            assert forall|i: int| 0 <= i < tail.len() implies tail[i] != 0u8 by {
                assert((head + tail)[head.len() + i] == tail[i]);
            }
            assert forall|i: int| 0 <= i < s.len() implies s[i] != '\0' by {
                if i > 0 {
                    assert(rest[i - 1] == s[i]);
                }
            }
        }
        if representable(s) {
            assert forall|i: int| 0 <= i < rest.len() implies rest[i] != '\0' by {
                assert(rest[i] == s[i + 1]);
            }
            assert(s[0] != '\0');
            assert(no_zero_byte(head + tail));
        }
    }
}

/// The same for a string that may be absent: absence is always representable.
pub open spec fn representable_or_absent(s: Option<Seq<char>>) -> bool {
    match s {
        Some(chars) => representable(chars),
        None => true,
    }
}

/// The characters of an optional string slice.
pub open spec fn optional_text(s: Option<&str>) -> Option<Seq<char>> {
    match s {
        Some(text) => Some(text@),
        None => None,
    }
}

/// The characters of an optional owned string.
pub open spec fn optional_string(s: Option<String>) -> Option<Seq<char>> {
    match s {
        Some(text) => Some(text@),
        None => None,
    }
}

/// The bytes of an optional input.
pub open spec fn optional_bytes(xml: Option<&[u8]>) -> Option<Seq<u8>> {
    match xml {
        Some(bytes) => Some(bytes@),
        None => None,
    }
}

/// What decoding an input gives: its characters, or the reason there are none.
pub open spec fn decoded(xml: Option<Seq<u8>>) -> Result<Seq<char>, BuildError> {
    match xml {
        None => Err(BuildError::InvalidArgument),
        Some(bytes) => if valid_utf8(bytes) {
            Ok(decode_utf8(bytes))
        } else {
            Err(BuildError::EncodingError)
        },
    }
}

/// Calls `std::str::from_utf8` and drops the error's detail.
///
/// Not proved: a string slice comes back exactly when the bytes are valid
/// UTF-8, and it is then a slice over the same bytes.
#[verifier::external_body]
fn text_of_bytes<'a>(bytes: &'a [u8]) -> (text: Option<&'a str>)
    ensures
        match text {
            Some(s) => valid_utf8(bytes@) && encode_utf8(s@) == bytes@,
            None => !valid_utf8(bytes@),
        },
{
    std::str::from_utf8(bytes).ok()
}

/// Tells whether a string holds the terminator, by a scan of its bytes.
pub fn has_embedded_terminator(s: &str) -> (found: bool)
    ensures
        found == !representable(s@),
{
    let bytes = s.as_bytes();
    proof {
        lemma_zero_bytes_are_zero_characters(s@);
    }
    let mut i: usize = 0;
    while i < bytes.len()
        invariant
            i <= bytes@.len(),
            bytes@ == encode_utf8(s@),
            no_zero_byte(bytes@) <==> representable(s@),
            forall|j: int| 0 <= j < i ==> bytes@[j] != 0u8,
        decreases bytes@.len() - i,
    {
        if bytes[i] == 0 {
            return true;
        }
        i += 1;
    }
    false
}

/// Copies a borrowed string into an owned one, after checking that a
/// terminated buffer can carry it. Nothing is allocated when it cannot.
pub fn capture_string(s: &str) -> (captured: Result<String, BuildError>)
    ensures
        match captured {
            Ok(owned) => representable(s@) && owned@ == s@,
            Err(e) => !representable(s@) && e == BuildError::UnrepresentableContent,
        },
{
    if has_embedded_terminator(s) {
        Err(BuildError::UnrepresentableContent)
    } else {
        Ok(s.to_owned())
    }
}

/// Copies a string that may be absent; absence stays absence, and an empty
/// string stays an empty string.
pub fn capture_optional(s: Option<&str>) -> (captured: Result<Option<String>, BuildError>)
    ensures
        match captured {
            Ok(owned) => representable_or_absent(optional_text(s)) && optional_string(owned)
                == optional_text(s),
            Err(e) => !representable_or_absent(optional_text(s)) && e
                == BuildError::UnrepresentableContent,
        },
{
    match s {
        None => Ok(None),
        Some(text) => match capture_string(text) {
            Ok(owned) => Ok(Some(owned)),
            Err(e) => Err(e),
        },
    }
}

/// Reads the input as text: an absent input and bytes that are not UTF-8 are
/// each refused with an error of their own.
pub fn decode_input<'a>(xml: Option<&'a [u8]>) -> (text: Result<&'a str, BuildError>)
    ensures
        match text {
            Ok(s) => decoded(optional_bytes(xml)) == Ok::<Seq<char>, BuildError>(s@),
            Err(e) => decoded(optional_bytes(xml)) == Err::<Seq<char>, BuildError>(e),
        },
{
    match xml {
        None => Err(BuildError::InvalidArgument),
        Some(bytes) => match text_of_bytes(bytes) {
            Some(s) => {
                proof {
                    encode_utf8_decode_utf8(s@);
                }
                Ok(s)
            },
            None => Err(BuildError::EncodingError),
        },
    }
}

} // verus!
