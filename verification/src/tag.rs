//! Axis tags: the four-character names of a font's design axes.

use vstd::prelude::*;
use vstd::slice::*;
use vstd::string::*;
use vstd::utf8::*;
use crate::engine::{decode_fault, decode_tag, utf8_text};
use crate::error::{Error, Fault};

verus! {

broadcast use {is_ascii_spec_bytes, is_ascii_chars_encode_utf8};

/// True of the bytes that stand for a printable ASCII character, the space
/// among them.
pub open spec fn is_printable(byte: u8) -> bool {
    0x20 <= byte <= 0x7E
}

/// What the tag decoder takes: one to four printable bytes that do not start
/// with a space and hold nothing but spaces after the first space.
pub open spec fn decodable(bytes: Seq<u8>) -> bool {
    &&& 1 <= bytes.len() <= 4
    &&& bytes[0] != 0x20
    &&& forall|i: int| 0 <= i < bytes.len() ==> is_printable(#[trigger] bytes[i])
    &&& forall|i: int, j: int|
        0 <= i < j < bytes.len() && #[trigger] bytes[i] == 0x20 ==> #[trigger] bytes[j] == 0x20
}

/// `bytes` filled up with spaces to a length of four.
pub open spec fn padded(bytes: Seq<u8>) -> Seq<u8> {
    Seq::new(
        4,
        |i: int|
            if i < bytes.len() {
                bytes[i]
            } else {
                0x20u8
            },
    )
}

/// An axis tag is four printable ASCII characters. It does not start with a
/// space, and a space is followed by spaces only.
pub open spec fn well_formed_tag(key: Seq<char>) -> bool {
    &&& key.len() == 4
    &&& key[0] != ' '
    &&& forall|i: int| 0 <= i < key.len() ==> ' ' <= #[trigger] key[i] <= '~'
    &&& forall|i: int, j: int|
        0 <= i < j < key.len() && #[trigger] key[i] == ' ' ==> #[trigger] key[j] == ' '
}

/// What a short key is told. The decoder would pad it; a location names its
/// axes in full.
pub open spec fn short_key_reason() -> Seq<char> {
    "an axis tag has exactly 4 characters"@
}

/// The reason given for a key that is no axis tag: the decoder's words where
/// the decoder refuses the key, [`short_key_reason`] where it would pad it.
pub open spec fn tag_fault(key: Seq<char>) -> Seq<char> {
    if decodable(encode_utf8(key)) {
        short_key_reason()
    } else {
        decode_fault(key)
    }
}

/// The failure reported for the key `key`, which is no axis tag.
pub open spec fn invalid_tag(key: Seq<char>) -> Fault {
    Fault::InvalidTag { key, reason: tag_fault(key) }
}

/// A well-formed axis tag.
#[derive(Clone, Copy, Debug, PartialEq, Eq)]
pub struct AxisTag {
    pub(crate) bytes: [u8; 4],
}

impl View for AxisTag {
    type V = Seq<char>;

    /// The tag's four characters.
    closed spec fn view(&self) -> Seq<char> {
        self.bytes@.map_values(|byte: u8| byte as char)
    }
}

impl AxisTag {
    /// No value of this type holds anything but a well-formed tag.
    #[verifier::type_invariant]
    spec fn well_formed(self) -> bool {
        well_formed_tag(self@)
    }

    /// The tag as the four bytes that a font file holds.
    pub fn to_bytes(&self) -> (bytes: [u8; 4])
        ensures
            well_formed_tag(self@),
            bytes@.map_values(|byte: u8| byte as char) == self@,
    {
        proof {
            use_type_invariant(self);
        }
        self.bytes
    }

    /// The tag as text: the key that it was read from.
    pub fn to_text(&self) -> (text: String)
        ensures
            text@ == self@,
    {
        let bytes = slice_to_vec(self.bytes.as_slice());
        proof {
            use_type_invariant(self);
            lemma_tag_is_decodable(self@);
            assert(encode_utf8(self@) =~= bytes@) by {
                assert forall|i: int| 0 <= i < 4 implies encode_utf8(self@)[i] == bytes@[i] by {
                    assert(encode_utf8(self@)[i] == self@[i] as u8);
                }
            }
            encode_utf8_valid_utf8(self@);
            encode_utf8_decode_utf8(self@);
        }
        match utf8_text(bytes) {
            Some(text) => text,
            None => unreached(),
        }
    }
}

/// The bytes of a well-formed tag are what the decoder takes, as they are.
proof fn lemma_tag_is_decodable(key: Seq<char>)
    requires
        well_formed_tag(key),
    ensures
        is_ascii_chars(key),
        decodable(encode_utf8(key)),
        encode_utf8(key).len() == 4,
{
    let bytes = encode_utf8(key);
    assert(is_ascii_chars(key));
    assert forall|i: int| 0 <= i < bytes.len() implies bytes[i] == key[i] as u8 by {}
}

/// Four ASCII characters whose bytes the decoder takes are a well-formed tag,
/// and the characters of those bytes.
proof fn lemma_decoded_is_tag(key: Seq<char>)
    requires
        is_ascii_chars(key),
        encode_utf8(key).len() == 4,
        decodable(encode_utf8(key)),
    ensures
        well_formed_tag(key),
        encode_utf8(key).map_values(|byte: u8| byte as char) == key,
{
    let bytes = encode_utf8(key);
    assert forall|i: int| 0 <= i < key.len() implies bytes[i] == key[i] as u8 && is_printable(
        bytes[i],
    ) by {}
    assert(bytes.map_values(|byte: u8| byte as char) =~= key);
}

/// Reads a key of a location mapping as an axis tag.
pub fn parse_tag(key: &str) -> (result: Result<AxisTag, Error>)
    ensures
        match result {
            Ok(tag) => well_formed_tag(key@) && tag@ == key@,
            Err(error) => !well_formed_tag(key@) && error@ == invalid_tag(key@),
        },
{
    proof {
        if well_formed_tag(key@) {
            lemma_tag_is_decodable(key@);
        }
    }
    match decode_tag(key) {
        Err(reason) => Err(Error::InvalidTag { key: String::from_str(key), reason }),
        Ok(bytes) => {
            if key.is_ascii() && key.len() == 4 {
                proof {
                    lemma_decoded_is_tag(key@);
                    assert(bytes@ =~= key.spec_bytes());
                }
                Ok(AxisTag { bytes })
            } else {
                Err(
                    Error::InvalidTag {
                        key: String::from_str(key),
                        reason: String::from_str("an axis tag has exactly 4 characters"),
                    },
                )
            }
        },
    }
}

} // verus!
