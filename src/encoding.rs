//! How each kind of field value is written as bytes and read back.

use vstd::prelude::*;
use vstd::slice::slice_to_vec;
use vstd::utf8::{
    decode_utf8, encode_utf8, encode_utf8_decode_utf8, encode_utf8_valid_utf8, valid_utf8,
};

verus! {

/// A value that has a byte encoding in the store.
pub trait Encodable: View + Sized {
    /// The bytes stored for a value.
    spec fn encoding(v: Self::V) -> Seq<u8>;

    /// The value that stored bytes stand for, or `None` where they do not
    /// decode.
    spec fn decoding(bytes: Seq<u8>) -> Option<Self::V>;

    fn encode(&self) -> (r: Vec<u8>)
        ensures
            r@ == Self::encoding(self@),
    ;

    fn decode(bytes: &[u8]) -> (r: Option<Self>)
        ensures
            r is Some <==> Self::decoding(bytes@) is Some,
            r matches Some(v) ==> Self::decoding(bytes@) == Some(v@),
    ;

    /// Every value reads back as itself.
    proof fn lemma_decode_encode(v: Self::V)
        ensures
            Self::decoding(Self::encoding(v)) == Some(v),
    ;
}

impl Encodable for u8 {
    open spec fn encoding(v: u8) -> Seq<u8> {
        seq![v]
    }

    open spec fn decoding(bytes: Seq<u8>) -> Option<u8> {
        if bytes.len() == 1 {
            Some(bytes[0])
        } else {
            None
        }
    }

    fn encode(&self) -> (r: Vec<u8>) {
        vec![*self]
    }

    fn decode(bytes: &[u8]) -> (r: Option<u8>) {
        if bytes.len() == 1 {
            Some(bytes[0])
        } else {
            None
        }
    }

    proof fn lemma_decode_encode(v: u8) {
    }
}

/// Big-endian bytes of a 16-bit value.
pub open spec fn be_bytes_u16(v: u16) -> Seq<u8> {
    seq![(v >> 8u16) as u8, v as u8]
}

/// The 16-bit value of two big-endian bytes.
pub open spec fn be_value_u16(b0: u8, b1: u8) -> u16 {
    ((b0 as u16) << 8u16) | (b1 as u16)
}

/// Big-endian bytes of a 32-bit value.
pub open spec fn be_bytes_u32(v: u32) -> Seq<u8> {
    seq![(v >> 24u32) as u8, (v >> 16u32) as u8, (v >> 8u32) as u8, v as u8]
}

/// The 32-bit value of four big-endian bytes.
pub open spec fn be_value_u32(b0: u8, b1: u8, b2: u8, b3: u8) -> u32 {
    ((b0 as u32) << 24u32) | ((b1 as u32) << 16u32) | ((b2 as u32) << 8u32) | (b3 as u32)
}

impl Encodable for u16 {
    open spec fn encoding(v: u16) -> Seq<u8> {
        be_bytes_u16(v)
    }

    open spec fn decoding(bytes: Seq<u8>) -> Option<u16> {
        if bytes.len() == 2 {
            Some(be_value_u16(bytes[0], bytes[1]))
        } else {
            None
        }
    }

    fn encode(&self) -> (r: Vec<u8>) {
        let v = *self;
        vec![(v >> 8u16) as u8, v as u8]
    }

    fn decode(bytes: &[u8]) -> (r: Option<u16>) {
        if bytes.len() == 2 {
            Some(((bytes[0] as u16) << 8u16) | (bytes[1] as u16))
        } else {
            None
        }
    }

    proof fn lemma_decode_encode(v: u16) {
        assert((((v >> 8u16) as u8 as u16) << 8u16) | (v as u8 as u16) == v) by (bit_vector);
    }
}

impl Encodable for u32 {
    open spec fn encoding(v: u32) -> Seq<u8> {
        be_bytes_u32(v)
    }

    open spec fn decoding(bytes: Seq<u8>) -> Option<u32> {
        if bytes.len() == 4 {
            Some(be_value_u32(bytes[0], bytes[1], bytes[2], bytes[3]))
        } else {
            None
        }
    }

    fn encode(&self) -> (r: Vec<u8>) {
        let v = *self;
        vec![(v >> 24u32) as u8, (v >> 16u32) as u8, (v >> 8u32) as u8, v as u8]
    }

    fn decode(bytes: &[u8]) -> (r: Option<u32>) {
        if bytes.len() == 4 {
            Some(
                ((bytes[0] as u32) << 24u32) | ((bytes[1] as u32) << 16u32) | ((bytes[2] as u32)
                    << 8u32) | (bytes[3] as u32),
            )
        } else {
            None
        }
    }

    proof fn lemma_decode_encode(v: u32) {
        assert((((v >> 24u32) as u8 as u32) << 24u32) | (((v >> 16u32) as u8 as u32) << 16u32)
            | (((v >> 8u32) as u8 as u32) << 8u32) | (v as u8 as u32) == v) by (bit_vector);
    }
}

/// The byte that stands for `true`; every other single byte reads as `false`.
pub const TRUE_BYTE: u8 = 0x01;

/// The byte written for `false`.
pub const FALSE_BYTE: u8 = 0x00;

impl Encodable for bool {
    open spec fn encoding(v: bool) -> Seq<u8> {
        seq![if v { TRUE_BYTE } else { FALSE_BYTE }]
    }

    open spec fn decoding(bytes: Seq<u8>) -> Option<bool> {
        if bytes.len() == 1 {
            Some(bytes[0] == TRUE_BYTE)
        } else {
            None
        }
    }

    fn encode(&self) -> (r: Vec<u8>) {
        if *self {
            vec![TRUE_BYTE]
        } else {
            vec![FALSE_BYTE]
        }
    }

    fn decode(bytes: &[u8]) -> (r: Option<bool>) {
        if bytes.len() == 1 {
            Some(bytes[0] == TRUE_BYTE)
        } else {
            None
        }
    }

    proof fn lemma_decode_encode(v: bool) {
    }
}

/// A byte blob is stored as it is.
impl Encodable for Vec<u8> {
    open spec fn encoding(v: Seq<u8>) -> Seq<u8> {
        v
    }

    open spec fn decoding(bytes: Seq<u8>) -> Option<Seq<u8>> {
        Some(bytes)
    }

    fn encode(&self) -> (r: Vec<u8>) {
        slice_to_vec(self.as_slice())
    }

    fn decode(bytes: &[u8]) -> (r: Option<Vec<u8>>) {
        Some(slice_to_vec(bytes))
    }

    proof fn lemma_decode_encode(v: Seq<u8>) {
    }
}

/// Relies on `core::str::from_utf8`: it succeeds exactly on valid UTF-8, and
/// the text it returns has those very bytes.
#[verifier::external_body]
fn utf8_text(bytes: &[u8]) -> (r: Option<&str>)
    ensures
        r is Some <==> valid_utf8(bytes@),
        r matches Some(s) ==> encode_utf8(s@) == bytes@,
{
    core::str::from_utf8(bytes).ok()
}

/// Text is stored as its UTF-8 bytes; bytes that are not valid UTF-8 do not
/// decode.
impl Encodable for String {
    open spec fn encoding(v: Seq<char>) -> Seq<u8> {
        encode_utf8(v)
    }

    open spec fn decoding(bytes: Seq<u8>) -> Option<Seq<char>> {
        if valid_utf8(bytes) {
            Some(decode_utf8(bytes))
        } else {
            None
        }
    }

    fn encode(&self) -> (r: Vec<u8>) {
        slice_to_vec(self.as_str().as_bytes())
    }

    fn decode(bytes: &[u8]) -> (r: Option<String>) {
        match utf8_text(bytes) {
            Some(s) => {
                proof {
                    encode_utf8_decode_utf8(s@);
                }
                Some(s.to_owned())
            },
            None => None,
        }
    }

    proof fn lemma_decode_encode(v: Seq<char>) {
        encode_utf8_valid_utf8(v);
        encode_utf8_decode_utf8(v);
    }
}

} // verus!
