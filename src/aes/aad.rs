//! Framing of the GHASH input: the associated data and the ciphertext, each
//! padded with zeros to whole blocks, then a block of their bit lengths.
use vstd::prelude::*;

verus! {

/// `s` followed by zeros up to the next multiple of 16 bytes.
pub open spec fn zero_pad(s: Seq<u8>) -> Seq<u8> {
    s + Seq::new(((16 - s.len() % 16) % 16) as nat, |i: int| 0u8)
}

/// The 8 big-endian bytes of `x`.
pub open spec fn be64_bytes(x: u64) -> Seq<u8> {
    Seq::new(8, |i: int| ((x >> ((56 - 8 * i) as u64)) & 0xff) as u8)
}

/// The GHASH input for associated data `aad` and ciphertext `ct`.
pub open spec fn ghash_input_spec(aad: Seq<u8>, ct: Seq<u8>) -> Seq<u8> {
    zero_pad(aad) + zero_pad(ct) + be64_bytes((8 * aad.len()) as u64) + be64_bytes((8 * ct.len()) as u64)
}

/// A length whose count of bits fits in 64 bits.
pub open spec fn bit_length_fits(len: nat) -> bool {
    8 * len < 0x1_0000_0000_0000_0000
}

/// Appends `s` and then the zeros that complete its last block.
fn push_zero_padded(out: &mut Vec<u8>, s: &Vec<u8>)
    ensures
        final(out)@ == old(out)@ + zero_pad(s@),
{
    let len = s.len();
    let mut i: usize = 0;
    while i < len
        invariant
            i <= len,
            len == s@.len(),
            out@ == old(out)@ + s@.subrange(0, i as int),
        decreases len - i,
    {
        out.push(s[i]);
        i += 1;
        assert(out@ =~= old(out)@ + s@.subrange(0, i as int));
    }
    let fill: usize = (16 - len % 16) % 16;
    let mut k: usize = 0;
    while k < fill
        invariant
            k <= fill,
            len == s@.len(),
            fill == (16 - len % 16) % 16,
            out@ == old(out)@ + s@ + Seq::new(k as nat, |m: int| 0u8),
        decreases fill - k,
    {
        out.push(0u8);
        k += 1;
        assert(out@ =~= old(out)@ + s@ + Seq::new(k as nat, |m: int| 0u8));
    }
    assert(out@ =~= old(out)@ + zero_pad(s@));
}

/// Appends the 8 big-endian bytes of `x`.
fn push_be64(out: &mut Vec<u8>, x: u64)
    ensures
        final(out)@ == old(out)@ + be64_bytes(x),
{
    let mut i: u64 = 0;
    while i < 8
        invariant
            i <= 8,
            out@ == old(out)@ + be64_bytes(x).subrange(0, i as int),
        decreases 8 - i,
    {
        out.push(((x >> (56 - 8 * i)) & 0xff) as u8);
        i += 1;
        assert(out@ =~= old(out)@ + be64_bytes(x).subrange(0, i as int));
    }
    assert(be64_bytes(x).subrange(0, 8) =~= be64_bytes(x));
}

/// Builds the GHASH input for associated data `aad` and ciphertext `ct`.
pub fn ghash_input(aad: &Vec<u8>, ct: &Vec<u8>) -> (r: Vec<u8>)
    requires
        bit_length_fits(aad@.len()),
        bit_length_fits(ct@.len()),
    ensures
        r@ == ghash_input_spec(aad@, ct@),
        r@.len() % 16 == 0,
{
    let mut out: Vec<u8> = Vec::new();
    push_zero_padded(&mut out, aad);
    push_zero_padded(&mut out, ct);
    push_be64(&mut out, (aad.len() as u64) * 8);
    push_be64(&mut out, (ct.len() as u64) * 8);
    out
}

} // verus!
