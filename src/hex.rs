//! Lower-case hexadecimal text of byte strings.

use vstd::prelude::*;
use vstd::utf8::{
    decode_utf8, encode_utf8, is_leading_byte_width_1, partial_valid_utf8,
    partial_valid_utf8_extend_ascii_block, valid_utf8,
};

use crate::encoding::Encodable;

verus! {

/// The ASCII code of the hexadecimal digit for `d < 16`.
pub open spec fn hex_digit(d: u8) -> u8 {
    if d < 10 {
        (48 + d) as u8
    } else {
        (87 + d) as u8
    }
}

/// Two lower-case hexadecimal ASCII digits per byte, high nibble first.
pub open spec fn hex_ascii(b: Seq<u8>) -> Seq<u8> {
    Seq::new(
        2 * b.len(),
        |i: int|
            if i % 2 == 0 {
                hex_digit(b[i / 2] / 16)
            } else {
                hex_digit(b[i / 2] % 16)
            },
    )
}

fn hex_digit_exec(d: u8) -> (r: u8)
    requires
        d < 16,
    ensures
        r == hex_digit(d),
{
    if d < 10 {
        48 + d
    } else {
        87 + d
    }
}

proof fn lemma_hex_ascii_valid_utf8(b: Seq<u8>)
    ensures
        valid_utf8(hex_ascii(b)),
{
    let h = hex_ascii(b);
    assert forall|i: int| 0 <= i < h.len() implies #[trigger] is_leading_byte_width_1(h[i]) by {
        assert(b[i / 2] / 16 < 16);
    }
    assert(h.subrange(0, 0) =~= Seq::<u8>::empty());
    assert(partial_valid_utf8(h, 0));
    partial_valid_utf8_extend_ascii_block(h, 0, h.len() as int);
    assert(h.subrange(0, h.len() as int) =~= h);
}

/// The hexadecimal text of `bytes`.
pub fn hexlify_bytes(bytes: &[u8]) -> (r: String)
    requires
        bytes@.len() <= usize::MAX / 2,
    ensures
        encode_utf8(r@) == hex_ascii(bytes@),
        r@ == decode_utf8(hex_ascii(bytes@)),
{
    let mut out: Vec<u8> = Vec::new();
    let mut i: usize = 0;
    while i < bytes.len()
        invariant
            i <= bytes@.len() <= usize::MAX / 2,
            out@.len() == 2 * i,
            forall|j: int| 0 <= j < 2 * i ==> out@[j] == #[trigger] hex_ascii(bytes@)[j],
        decreases bytes@.len() - i,
    {
        let b = bytes[i];
        out.push(hex_digit_exec(b / 16));
        out.push(hex_digit_exec(b % 16));
        proof {
            let j0 = 2 * i as int;
            assert(j0 / 2 == i as int && j0 % 2 == 0);
            assert((j0 + 1) / 2 == i as int && (j0 + 1) % 2 == 1);
        }
        i += 1;
    }
    assert(out@ =~= hex_ascii(bytes@));
    proof {
        lemma_hex_ascii_valid_utf8(bytes@);
    }
    match String::decode(out.as_slice()) {
        Some(s) => {
            proof {
                vstd::utf8::encode_utf8_decode_utf8(s@);
                vstd::utf8::decode_utf8_encode_utf8(hex_ascii(bytes@));
            }
            s
        },
        None => String::new(),
    }
}

} // verus!
