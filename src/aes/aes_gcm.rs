//! Galois/Counter mode: CTR encryption from the counter block after `J0`, and
//! a tag made of GHASH over the associated data and the ciphertext, XORed with
//! the encryption of `J0`.
use vstd::prelude::*;

use crate::aes::aad::{bit_length_fits, ghash_input, ghash_input_spec};
use crate::aes::aes_ctr::{ctr_apply_spec, inc32, inc32_spec, keystream_xor, lemma_ctr_self_inverse};
use crate::aes::key::Key;
use crate::aes::{
    block_at, cipher, copy_range, encrypt_block, lemma_cipher_inverse, push_block, schedule_fits, xor_spec,
    AesError, Block,
};

verus! {

/// The GCM reduction constant: `11100001` followed by 120 zero bits.
pub const GCM_R: u128 = 0xe100_0000_0000_0000_0000_0000_0000_0000;

/// The first `n` bytes of `b` read as a big-endian number.
pub open spec fn be_value(b: Seq<u8>, n: nat) -> u128
    decreases n,
{
    if n == 0 {
        0
    } else {
        (be_value(b, (n - 1) as nat) << 8u32) | (b[n - 1] as u128)
    }
}

/// A 16-byte block read as a big-endian 128-bit number.
pub open spec fn block_to_u128(b: Seq<u8>) -> u128 {
    be_value(b, 16)
}

/// The 16 big-endian bytes of `x`.
pub open spec fn u128_to_block(x: u128) -> Seq<u8> {
    Seq::new(16, |i: int| ((x >> ((120 - 8 * i) as u32)) & 0xff) as u8)
}

/// Steps `i..128` of the product in GF(2^128) with the GCM bit order: bit `i`
/// of `x` (counted from the most significant) selects whether `v` is added.
pub open spec fn gf128_from(z: u128, v: u128, x: u128, i: nat) -> u128
    decreases 128 - i,
{
    if i >= 128 {
        z
    } else {
        let z2 = if (x >> ((127 - i) as u32)) & 1 == 1 { z ^ v } else { z };
        let v2 = if v & 1 == 1 { (v >> 1u32) ^ GCM_R } else { v >> 1u32 };
        gf128_from(z2, v2, x, i + 1)
    }
}

/// The product of `x` and `y` in GF(2^128), GCM convention.
pub open spec fn gf128_mul(x: u128, y: u128) -> u128 {
    gf128_from(0, y, x, 0)
}

/// GHASH over the first `n` blocks of `input` with hash subkey `h`.
pub open spec fn ghash_from(h: u128, input: Seq<u8>, n: nat) -> u128
    decreases n,
{
    if n == 0 {
        0
    } else {
        gf128_mul(ghash_from(h, input, (n - 1) as nat) ^ block_to_u128(block_at(input, n - 1)), h)
    }
}

/// The hash subkey `H`: the encryption of the all-zero block.
pub open spec fn hash_subkey(w: Seq<u8>, nr: nat) -> u128 {
    block_to_u128(cipher(Seq::new(16, |i: int| 0u8), w, nr))
}

/// The initial counter block `J0` of a 12-byte nonce.
pub open spec fn j0_spec(nonce: Seq<u8>) -> Seq<u8> {
    nonce + seq![0u8, 0u8, 0u8, 1u8]
}

/// The GCM ciphertext: CTR from the counter block after `J0`.
pub open spec fn gcm_ciphertext(w: Seq<u8>, nr: nat, nonce: Seq<u8>, p: Seq<u8>) -> Seq<u8> {
    ctr_apply_spec(w, nr, inc32_spec(j0_spec(nonce)), p)
}

/// The GCM tag of associated data `aad` and ciphertext `ct`.
pub open spec fn gcm_tag(w: Seq<u8>, nr: nat, nonce: Seq<u8>, aad: Seq<u8>, ct: Seq<u8>) -> Seq<u8> {
    let input = ghash_input_spec(aad, ct);
    let s = ghash_from(hash_subkey(w, nr), input, input.len() / 16);
    xor_spec(cipher(j0_spec(nonce), w, nr), u128_to_block(s))
}

/// GCM encryption: the nonce, the ciphertext, then the tag.
pub open spec fn gcm_encrypt_spec(w: Seq<u8>, nr: nat, nonce: Seq<u8>, aad: Seq<u8>, p: Seq<u8>) -> Seq<u8> {
    let ct = gcm_ciphertext(w, nr, nonce, p);
    nonce + ct + gcm_tag(w, nr, nonce, aad, ct)
}

/// GCM decryption of the nonce, ciphertext and tag: the plaintext only when
/// the tag matches the one computed from the given ciphertext and `aad`.
pub open spec fn gcm_decrypt_spec(w: Seq<u8>, nr: nat, aad: Seq<u8>, c: Seq<u8>) -> Result<Seq<u8>, AesError> {
    if c.len() < 28 {
        Err(AesError::Truncated)
    } else {
        let nonce = c.subrange(0, 12);
        let ct = c.subrange(12, c.len() - 16);
        let tag = c.subrange(c.len() - 16, c.len() as int);
        if tag == gcm_tag(w, nr, nonce, aad, ct) {
            Ok(ctr_apply_spec(w, nr, inc32_spec(j0_spec(nonce)), ct))
        } else {
            Err(AesError::AuthenticationFailed)
        }
    }
}

/// Multiplication in GF(2^128), bit by bit.
pub fn gf128_multiply(x: u128, y: u128) -> (r: u128)
    ensures
        r == gf128_mul(x, y),
{
    let mut z: u128 = 0;
    let mut v: u128 = y;
    let mut i: u32 = 0;
    while i < 128
        invariant
            i <= 128,
            gf128_from(z, v, x, i as nat) == gf128_mul(x, y),
        decreases 128 - i,
    {
        if (x >> (127 - i)) & 1 == 1 {
            z = z ^ v;
        }
        v = if v & 1 == 1 { (v >> 1) ^ GCM_R } else { v >> 1 };
        i += 1;
    }
    z
}

/// Reads block `i` of `bytes` as a big-endian 128-bit number.
fn load_block(bytes: &Vec<u8>, i: usize) -> (r: u128)
    requires
        16 * i + 16 <= bytes@.len(),
    ensures
        r == block_to_u128(block_at(bytes@, i as int)),
{
    let ghost b = block_at(bytes@, i as int);
    let total = bytes.len();
    let base = 16 * i;
    let mut acc: u128 = 0;
    let mut k: usize = 0;
    while k < 16
        invariant
            k <= 16,
            base == 16 * i,
            base + 16 <= bytes@.len(),
            b == bytes@.subrange(base as int, base + 16),
            acc == be_value(b, k as nat),
        decreases 16 - k,
    {
        acc = (acc << 8) | (bytes[base + k] as u128);
        k += 1;
    }
    acc
}

/// The 16 big-endian bytes of `x`.
fn store_block(x: u128) -> (r: Block)
    ensures
        r@ == u128_to_block(x),
{
    let mut out: Block = [0u8; 16];
    let mut k: u32 = 0;
    while k < 16
        invariant
            k <= 16,
            forall|m: int| 0 <= m < k ==> out@[m] == u128_to_block(x)[m],
        decreases 16 - k,
    {
        out[k as usize] = ((x >> (120 - 8 * k)) & 0xff) as u8;
        k += 1;
    }
    assert(out@ =~= u128_to_block(x));
    out
}

/// GHASH of a block-aligned input under hash subkey `h`.
pub fn ghash(h: u128, input: &Vec<u8>) -> (r: u128)
    requires
        input@.len() % 16 == 0,
    ensures
        r == ghash_from(h, input@, input@.len() / 16),
{
    let n = input.len() / 16;
    let mut acc: u128 = 0;
    let mut i: usize = 0;
    while i < n
        invariant
            i <= n,
            n == input@.len() / 16,
            input@.len() % 16 == 0,
            acc == ghash_from(h, input@, i as nat),
        decreases n - i,
    {
        let block = load_block(input, i);
        acc = gf128_multiply(acc ^ block, h);
        i += 1;
    }
    acc
}

/// The tag of `aad` and `ct` under the given schedule and nonce.
fn compute_tag(round_keys: &Vec<u8>, nr: usize, nonce: &[u8; 12], aad: &Vec<u8>, ct: &Vec<u8>) -> (r: Block)
    requires
        schedule_fits(round_keys@, nr as nat),
        bit_length_fits(aad@.len()),
        bit_length_fits(ct@.len()),
    ensures
        r@ == gcm_tag(round_keys@, nr as nat, nonce@, aad@, ct@),
{
    let mut zero: Block = [0u8; 16];
    assert(zero@ =~= Seq::new(16, |i: int| 0u8));
    encrypt_block(round_keys, nr, &mut zero);
    let mut hv: Vec<u8> = Vec::new();
    push_block(&mut hv, &zero);
    let h = load_block(&hv, 0);
    assert(block_at(hv@, 0) =~= zero@);
    let input = ghash_input(aad, ct);
    let s = ghash(h, &input);
    let mut tag = j0_block(nonce);
    encrypt_block(round_keys, nr, &mut tag);
    let mask = store_block(s);
    crate::aes::xor_block(&mask, &mut tag);
    tag
}

/// `J0` for a 12-byte nonce: the nonce followed by the 32-bit counter 1.
fn j0_block(nonce: &[u8; 12]) -> (r: Block)
    ensures
        r@ == j0_spec(nonce@),
{
    let r: Block = [
        nonce[0], nonce[1], nonce[2], nonce[3], nonce[4], nonce[5], nonce[6], nonce[7], nonce[8],
        nonce[9], nonce[10], nonce[11], 0, 0, 0, 1,
    ];
    assert(r@ =~= j0_spec(nonce@));
    r
}

/// Encrypts and authenticates `data` with associated data `aad` under a
/// 12-byte nonce; the output is the nonce, the ciphertext (as long as the
/// data) and the 16-byte tag.
pub fn encrypt(key: &Key, nonce: &[u8; 12], aad: &Vec<u8>, data: &Vec<u8>) -> (r: Vec<u8>)
    requires
        key.wf(),
        bit_length_fits(aad@.len()),
        bit_length_fits(data@.len()),
    ensures
        r@ == gcm_encrypt_spec(key.schedule(), key.rounds(), nonce@, aad@, data@),
{
    let nr = key.num_rounds();
    let w = key.expanded();
    let mut counter = j0_block(nonce);
    inc32(&mut counter);
    let mut ct = keystream_xor(w, nr, &counter, data);
    let tag = compute_tag(w, nr, nonce, aad, &ct);
    let mut out: Vec<u8> = Vec::new();
    let mut k: usize = 0;
    while k < 12
        invariant
            k <= 12,
            out@ == nonce@.subrange(0, k as int),
        decreases 12 - k,
    {
        out.push(nonce[k]);
        k += 1;
        assert(out@ =~= nonce@.subrange(0, k as int));
    }
    assert(out@ =~= nonce@);
    out.append(&mut ct);
    push_block(&mut out, &tag);
    assert(out@ =~= gcm_encrypt_spec(w@, nr as nat, nonce@, aad@, data@));
    out
}

/// Compares two tags, looking at every byte whatever the earlier ones held.
fn tags_equal(a: &Block, b: &Vec<u8>) -> (r: bool)
    requires
        b@.len() == 16,
    ensures
        r <==> a@ == b@,
{
    let mut diff: u8 = 0;
    let mut i: usize = 0;
    while i < 16
        invariant
            i <= 16,
            b@.len() == 16,
            diff == 0 <==> forall|m: int| 0 <= m < i ==> a@[m] == b@[m],
        decreases 16 - i,
    {
        let (x, y) = (a[i], b[i]);
        let old_diff = diff;
        diff = diff | (x ^ y);
        assert((old_diff | (x ^ y)) == 0 <==> (old_diff == 0 && x == y)) by (bit_vector);
        i += 1;
    }
    if diff == 0 {
        assert(a@ =~= b@);
        true
    } else {
        false
    }
}

/// Checks the tag and, only when it matches, decrypts the nonce, ciphertext
/// and tag produced by `encrypt`.
pub fn decrypt(key: &Key, aad: &Vec<u8>, data: &Vec<u8>) -> (r: Result<Vec<u8>, AesError>)
    requires
        key.wf(),
        bit_length_fits(aad@.len()),
        bit_length_fits(data@.len()),
    ensures
        match gcm_decrypt_spec(key.schedule(), key.rounds(), aad@, data@) {
            Ok(p) => r is Ok && r->Ok_0@ == p,
            Err(e) => r is Err && r->Err_0 == e,
        },
{
    let nr = key.num_rounds();
    let w = key.expanded();
    let len = data.len();
    if len < 28 {
        return Err(AesError::Truncated);
    }
    let mut nonce: [u8; 12] = [0u8; 12];
    let mut k: usize = 0;
    while k < 12
        invariant
            k <= 12,
            len == data@.len(),
            len >= 28,
            forall|m: int| 0 <= m < k ==> nonce@[m] == data@[m],
        decreases 12 - k,
    {
        nonce[k] = data[k];
        k += 1;
    }
    assert(nonce@ =~= data@.subrange(0, 12));
    let ct = copy_range(data, 12, len - 16);
    let tag = copy_range(data, len - 16, len);
    let expected = compute_tag(w, nr, &nonce, aad, &ct);
    if !tags_equal(&expected, &tag) {
        return Err(AesError::AuthenticationFailed);
    }
    let mut counter = j0_block(&nonce);
    inc32(&mut counter);
    Ok(keystream_xor(w, nr, &counter, &ct))
}

proof fn lemma_gcm_layout(key: Key, nonce: Seq<u8>, aad: Seq<u8>, data: Seq<u8>, tag: Seq<u8>)
    requires
        key.wf(),
        nonce.len() == 12,
        tag.len() == 16,
    ensures
        ({
            let (w, nr) = (key.schedule(), key.rounds());
            let ct = gcm_ciphertext(w, nr, nonce, data);
            let c = nonce + ct + tag;
            &&& c.len() == data.len() + 28
            &&& c.subrange(0, 12) == nonce
            &&& c.subrange(12, c.len() - 16) == ct
            &&& c.subrange(c.len() - 16, c.len() as int) == tag
        }),
{
    let (w, nr) = (key.schedule(), key.rounds());
    let ct = gcm_ciphertext(w, nr, nonce, data);
    let c = nonce + ct + tag;
    assert(c.subrange(0, 12) =~= nonce);
    assert(c.subrange(12, c.len() - 16) =~= ct);
    assert(c.subrange(c.len() - 16, c.len() as int) =~= tag);
}

proof fn lemma_gcm_tag_len(key: Key, nonce: Seq<u8>, aad: Seq<u8>, ct: Seq<u8>)
    requires
        key.wf(),
        nonce.len() == 12,
    ensures
        gcm_tag(key.schedule(), key.rounds(), nonce, aad, ct).len() == 16,
{
    lemma_cipher_inverse(j0_spec(nonce), key.schedule(), key.rounds());
}

/// Decrypting what GCM encryption produced, with the same associated data,
/// gives back the plaintext.
pub proof fn lemma_gcm_round_trip(key: Key, nonce: Seq<u8>, aad: Seq<u8>, data: Seq<u8>)
    requires
        key.wf(),
        nonce.len() == 12,
    ensures
        gcm_decrypt_spec(key.schedule(), key.rounds(), aad, gcm_encrypt_spec(key.schedule(), key.rounds(), nonce, aad, data))
            == Ok::<Seq<u8>, AesError>(data),
{
    let (w, nr) = (key.schedule(), key.rounds());
    let ct = gcm_ciphertext(w, nr, nonce, data);
    lemma_gcm_tag_len(key, nonce, aad, ct);
    lemma_gcm_layout(key, nonce, aad, data, gcm_tag(w, nr, nonce, aad, ct));
    lemma_ctr_self_inverse(key, inc32_spec(j0_spec(nonce)), data);
}

/// Replacing the tag of a GCM output by any other 16 bytes makes decryption
/// fail with an authentication error, releasing no plaintext.
pub proof fn lemma_gcm_tag_tamper(key: Key, nonce: Seq<u8>, aad: Seq<u8>, data: Seq<u8>, forged: Seq<u8>)
    requires
        key.wf(),
        nonce.len() == 12,
        forged.len() == 16,
        forged != gcm_tag(
            key.schedule(),
            key.rounds(),
            nonce,
            aad,
            gcm_ciphertext(key.schedule(), key.rounds(), nonce, data),
        ),
    ensures
        gcm_decrypt_spec(
            key.schedule(),
            key.rounds(),
            aad,
            nonce + gcm_ciphertext(key.schedule(), key.rounds(), nonce, data) + forged,
        ) == Err::<Seq<u8>, AesError>(AesError::AuthenticationFailed),
{
    lemma_gcm_layout(key, nonce, aad, data, forged);
}

} // verus!
