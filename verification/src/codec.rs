//! The entry codec: a reversible per-byte transform applied to every byte
//! sequence stored in the container. It is not a security mechanism; it only
//! keeps a generic archive-browsing tool from displaying raw entry content.

use vstd::prelude::*;

verus! {

/// One byte through the codec: XOR with the fixed mask `0xAA`.
pub open spec fn code_byte(b: u8) -> u8 {
    b ^ 0xAA
}

/// A whole byte sequence through the codec, byte for byte.
pub open spec fn coded(s: Seq<u8>) -> Seq<u8> {
    s.map_values(|b: u8| code_byte(b))
}

/// The codec is self-inverse: applying it twice gives back the input,
/// for every byte sequence, the empty one included.
pub proof fn lemma_codec_round_trip(s: Seq<u8>)
    ensures
        coded(coded(s)) == s,
{
    assert forall|b: u8| #[trigger] code_byte(code_byte(b)) == b by {
        assert((b ^ 0xAA) ^ 0xAA == b) by (bit_vector);
    }
    assert(coded(coded(s)) =~= s);
}

/// Applies the codec to a byte buffer.
fn transform(data: &Vec<u8>) -> (r: Vec<u8>)
    ensures
        r@ == coded(data@),
{
    let mut out: Vec<u8> = Vec::new();
    let mut i: usize = 0;
    while i < data.len()
        invariant
            i <= data@.len(),
            out@.len() == i,
            forall|j: int| 0 <= j < i ==> out@[j] == code_byte(data@[j]),
        decreases data@.len() - i,
    {
        out.push(data[i] ^ 0xAA);
        i = i + 1;
    }
    proof {
        assert(out@ =~= coded(data@));
    }
    out
}

/// Encodes a byte buffer for storage in the container.
pub fn encode(data: &Vec<u8>) -> (r: Vec<u8>)
    ensures
        r@ == coded(data@),
{
    transform(data)
}

/// Decodes a stored byte buffer back to its logical content; decoding what
/// [`encode`] produced returns the original bytes.
pub fn decode(data: &Vec<u8>) -> (r: Vec<u8>)
    ensures
        r@ == coded(data@),
        coded(r@) == data@,
{
    proof {
        lemma_codec_round_trip(data@);
    }
    transform(data)
}

} // verus!
