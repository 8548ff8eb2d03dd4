//! The byte payloads hashed into DNA, in the SCALE encoding that the ledger uses
//! for tuples: fields one after another, integers as little-endian bytes, byte
//! arrays as they stand, and an `Option` as a tag byte followed by the value.
use vstd::bytes::{spec_u32_to_le_bytes, spec_u64_to_le_bytes, u32_to_le_bytes, u64_to_le_bytes};
use vstd::prelude::*;

verus! {

/// The encoding of an optional `u32`: `0` for none, `1` and four
/// little-endian bytes for some.
pub open spec fn option_u32_encoding(x: Option<u32>) -> Seq<u8> {
    match x {
        None => seq![0u8],
        Some(v) => seq![1u8] + spec_u32_to_le_bytes(v),
    }
}

/// The encoding of `(owner, random, kitty_id, extrinsic_index)` from which a
/// new kitty's DNA is hashed.
pub open spec fn creation_payload(
    owner: u64,
    random: Seq<u8>,
    kitty_id: u32,
    extrinsic_index: Option<u32>,
) -> Seq<u8> {
    spec_u64_to_le_bytes(owner) + random + spec_u32_to_le_bytes(kitty_id) + option_u32_encoding(
        extrinsic_index,
    )
}

/// The encoding of `(first, second, random, kitty_id, extrinsic_index)` from
/// which a bred kitty's DNA is hashed.
pub open spec fn breeding_payload(
    first: Seq<u8>,
    second: Seq<u8>,
    random: Seq<u8>,
    kitty_id: u32,
    extrinsic_index: Option<u32>,
) -> Seq<u8> {
    first + second + random + spec_u32_to_le_bytes(kitty_id) + option_u32_encoding(extrinsic_index)
}

/// Appends the bytes of `bytes` to `out`.
fn push_bytes(out: &mut Vec<u8>, bytes: &[u8])
    ensures
        final(out)@ == old(out)@ + bytes@,
{
    let mut i: usize = 0;
    while i < bytes.len()
        invariant
            i <= bytes@.len(),
            out@ == old(out)@ + bytes@.subrange(0, i as int),
        decreases bytes@.len() - i,
    {
        out.push(bytes[i]);
        i = i + 1;
        proof {
            assert(out@ =~= old(out)@ + bytes@.subrange(0, i as int));
        }
    }
    proof {
        assert(bytes@.subrange(0, i as int) =~= bytes@);
    }
}

/// Appends the encoding of `x` to `out`.
fn push_option_u32(out: &mut Vec<u8>, x: Option<u32>)
    ensures
        final(out)@ == old(out)@ + option_u32_encoding(x),
{
    match x {
        None => {
            out.push(0u8);
            proof {
                assert(out@ =~= old(out)@ + option_u32_encoding(x));
            }
        },
        Some(v) => {
            out.push(1u8);
            let le = u32_to_le_bytes(v);
            push_bytes(out, le.as_slice());
            proof {
                assert(out@ =~= old(out)@ + option_u32_encoding(x));
            }
        },
    }
}

pub fn encode_creation_payload(
    owner: u64,
    random: &[u8; 32],
    kitty_id: u32,
    extrinsic_index: Option<u32>,
) -> (r: Vec<u8>)
    ensures
        r@ == creation_payload(owner, random@, kitty_id, extrinsic_index),
{
    let mut out = u64_to_le_bytes(owner);
    push_bytes(&mut out, random.as_slice());
    let id = u32_to_le_bytes(kitty_id);
    push_bytes(&mut out, id.as_slice());
    push_option_u32(&mut out, extrinsic_index);
    proof {
        assert(out@ =~= creation_payload(owner, random@, kitty_id, extrinsic_index));
    }
    out
}

pub fn encode_breeding_payload(
    first: &[u8; 16],
    second: &[u8; 16],
    random: &[u8; 32],
    kitty_id: u32,
    extrinsic_index: Option<u32>,
) -> (r: Vec<u8>)
    ensures
        r@ == breeding_payload(first@, second@, random@, kitty_id, extrinsic_index),
{
    let mut out: Vec<u8> = Vec::new();
    push_bytes(&mut out, first.as_slice());
    push_bytes(&mut out, second.as_slice());
    push_bytes(&mut out, random.as_slice());
    let id = u32_to_le_bytes(kitty_id);
    push_bytes(&mut out, id.as_slice());
    push_option_u32(&mut out, extrinsic_index);
    proof {
        assert(out@ =~= breeding_payload(first@, second@, random@, kitty_id, extrinsic_index));
    }
    out
}

} // verus!
