//! Text on its way to and from the storage library.
//!
//! The storage library takes names as C strings, which end at the first zero
//! byte, and hands text back as bare bytes.

use crate::error::Error;
use vstd::prelude::*;
use vstd::string::*;
use vstd::utf8::*;

verus! {

/// Whether a byte sequence holds no zero byte.
pub open spec fn no_nul(bytes: Seq<u8>) -> bool {
    forall|i: int| 0 <= i < bytes.len() ==> bytes[i] != 0u8
}

/// Whether text can be handed to the storage library whole: it holds no NUL
/// character, at which a C string would end.
pub open spec fn representable(text: Seq<char>) -> bool {
    forall|i: int| 0 <= i < text.len() ==> text[i] != '\0'
}

proof fn lemma_low_byte(scalar: u32)
    by (bit_vector)
    requires
        scalar <= 0x7F,
    ensures
        ((scalar & 0x7F) as u8 == 0u8) <==> scalar == 0,
{
}

proof fn lemma_tagged_bytes(scalar: u32)
    by (bit_vector)
    ensures
        0xC0u8 | ((scalar >> 6) & 0x1F) as u8 != 0u8,
        0xE0u8 | ((scalar >> 12) & 0x0F) as u8 != 0u8,
        0xF0u8 | ((scalar >> 18) & 0x7) as u8 != 0u8,
        0x80u8 | (scalar & 0x3F) as u8 != 0u8,
        0x80u8 | ((scalar >> 6) & 0x3F) as u8 != 0u8,
        0x80u8 | ((scalar >> 12) & 0x3F) as u8 != 0u8,
{
}

/// The UTF-8 encoding of a character holds a zero byte exactly if the
/// character is NUL.
pub proof fn lemma_nul_byte_of_char(c: char)
    ensures
        no_nul(encode_scalar(c as u32)) <==> c != '\0',
{
    let scalar = c as u32;
    let bytes = encode_scalar(scalar);
    char_is_scalar(c);
    char_u32_cast(c, scalar);
    char_u32_cast('\0', 0u32);
    lemma_tagged_bytes(scalar);
    if has_width_1_encoding(scalar) {
        lemma_low_byte(scalar);
        assert(bytes[0] == (scalar & 0x7F) as u8);
        if c != '\0' {
            assert(scalar != 0);
        }
    }
}

/// The UTF-8 encoding of text holds a zero byte exactly if the text holds a
/// NUL character.
pub proof fn lemma_nul_byte_iff_nul_char(text: Seq<char>)
    ensures
        no_nul(encode_utf8(text)) <==> representable(text),
    decreases text.len(),
{
    if text.len() > 0 {
        let head = encode_scalar(text[0] as u32);
        let tail = encode_utf8(text.drop_first());
        lemma_nul_byte_of_char(text[0]);
        lemma_nul_byte_iff_nul_char(text.drop_first());
        assert(encode_utf8(text) == head + tail);
        if no_nul(head) && no_nul(tail) {
            assert forall|i: int| 0 <= i < (head + tail).len() implies (head + tail)[i] != 0u8 by {
                if i >= head.len() {
                    assert((head + tail)[i] == tail[i - head.len()]);
                }
            }
        }
        if no_nul(head + tail) {
            assert forall|i: int| 0 <= i < head.len() implies head[i] != 0u8 by {
                assert((head + tail)[i] == head[i]);
            }
            assert forall|i: int| 0 <= i < tail.len() implies tail[i] != 0u8 by {
                assert((head + tail)[i + head.len()] == tail[i]);
            }
        }
        if representable(text) {
            assert(text[0] != '\0');
            assert forall|i: int| 0 <= i < text.drop_first().len() implies text.drop_first()[i]
                != '\0' by {
                assert(text.drop_first()[i] == text[i + 1]);
            }
        }
        if text[0] != '\0' && representable(text.drop_first()) {
            assert forall|i: int| 0 <= i < text.len() implies text[i] != '\0' by {
                if i > 0 {
                    assert(text[i] == text.drop_first()[i - 1]);
                }
            }
        }
    }
}

/// Whether every text of a list can be handed to the storage library whole.
pub open spec fn all_representable(texts: Seq<Seq<char>>) -> bool {
    forall|i: int| 0 <= i < texts.len() ==> representable(#[trigger] texts[i])
}

/// What is made of a name on its way to the storage library: `made` where
/// the name can be handed over whole, else `EncodingError`.
pub open spec fn named<T>(name: Seq<char>, made: T) -> Result<T, Error> {
    if representable(name) {
        Ok(made)
    } else {
        Err(Error::EncodingError)
    }
}

/// Tests whether text can be handed to the storage library whole.
pub fn is_representable(text: &str) -> (r: bool)
    ensures
        r == representable(text@),
{
    let bytes = text.as_bytes();
    proof {
        lemma_nul_byte_iff_nul_char(text@);
    }
    let mut i: usize = 0;
    while i < bytes.len()
        invariant
            i <= bytes.len(),
            bytes@ == encode_utf8(text@),
            no_nul(bytes@) <==> representable(text@),
            forall|j: int| 0 <= j < i ==> bytes@[j] != 0u8,
        decreases bytes.len() - i,
    {
        if bytes[i] == 0 {
            return false;
        }
        i += 1;
    }
    true
}

/// Copies a name for the storage library, or refuses it with
/// `EncodingError` where it holds a zero byte.
pub fn checked_name(name: &str) -> (r: Result<String, Error>)
    ensures
        text_of(r) == named(name@, name@),
{
    if is_representable(name) {
        Ok(name.to_owned())
    } else {
        Err(Error::EncodingError)
    }
}

/// Copies a list of names for the storage library, or refuses the list with
/// `EncodingError` where one of them holds a zero byte.
pub fn checked_names(names: &[&str]) -> (r: Result<Vec<String>, Error>)
    ensures
        all_representable(names.deep_view()) ==> r is Ok && r->Ok_0.deep_view()
            == names.deep_view(),
        !all_representable(names.deep_view()) ==> r == Err::<Vec<String>, Error>(
            Error::EncodingError,
        ),
{
    let mut out: Vec<String> = Vec::new();
    let mut i: usize = 0;
    while i < names.len()
        invariant
            i <= names.len(),
            out.len() == i,
            forall|j: int| 0 <= j < i ==> #[trigger] out[j]@ == names[j]@,
            forall|j: int| 0 <= j < i ==> representable(#[trigger] names[j]@),
        decreases names.len() - i,
    {
        if !is_representable(names[i]) {
            proof {
                assert(names.deep_view()[i as int] == names[i as int]@);
            }
            return Err(Error::EncodingError);
        }
        out.push(names[i].to_owned());
        i += 1;
    }
    proof {
        assert(out.deep_view() =~= names.deep_view());
        assert forall|j: int| 0 <= j < names.deep_view().len() implies representable(
            #[trigger] names.deep_view()[j],
        ) by {
            assert(names.deep_view()[j] == names[j]@);
        }
    }
    Ok(out)
}

/// The error of `String::from_utf8` of the standard library. Nothing is
/// known of what it holds.
#[verifier::external_type_specification]
#[verifier::external_body]
pub struct ExFromUtf8Error(std::string::FromUtf8Error);

/// `String::from_utf8` of the standard library: it succeeds exactly on valid
/// UTF-8, and the string it then gives is made of the very bytes handed in.
#[verifier::external_body]
fn string_from_utf8(bytes: Vec<u8>) -> (r: Result<String, std::string::FromUtf8Error>)
    ensures
        r is Ok <==> valid_utf8(bytes@),
        r matches Ok(s) ==> encode_utf8(s@) == bytes@,
{
    String::from_utf8(bytes)
}

/// The meaning of bytes that the storage library handed out as text.
pub open spec fn decoded(bytes: Seq<u8>) -> Result<Seq<char>, Error> {
    if valid_utf8(bytes) {
        Ok(decode_utf8(bytes))
    } else {
        Err(Error::EncodingError)
    }
}

/// A result that holds text, with the text as a sequence of characters.
pub open spec fn text_of(r: Result<String, Error>) -> Result<Seq<char>, Error> {
    match r {
        Ok(s) => Ok(s@),
        Err(e) => Err(e),
    }
}

/// Reads bytes that the storage library handed out as text: the text they
/// encode, or `EncodingError` where they are not valid UTF-8.
pub fn decode(bytes: Vec<u8>) -> (r: Result<String, Error>)
    ensures
        text_of(r) == decoded(bytes@),
{
    match string_from_utf8(bytes) {
        Ok(s) => {
            proof {
                encode_utf8_decode_utf8(s@);
            }
            Ok(s)
        },
        Err(_) => Err(Error::EncodingError),
    }
}

} // verus!
