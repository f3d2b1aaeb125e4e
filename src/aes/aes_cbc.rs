//! Cipher block chaining: each plaintext block is XORed with the previous
//! ciphertext block (the IV for the first) before it is encrypted.
use vstd::prelude::*;

use crate::aes::key::Key;
use crate::aes::{
    add_padding, block_at, cipher, decrypt_block, encrypt_block, inv_cipher, lemma_cipher_inverse,
    lemma_padding, lemma_xor_twice, pad_spec, push_block, remove_padding, schedule_fits,
    split_blocks, unpad_spec, xor_block, xor_spec, AesError, Block,
};

verus! {

/// Ciphertext block `i` of the padded plaintext `p` under IV `iv`.
pub open spec fn cbc_block(w: Seq<u8>, nr: nat, iv: Seq<u8>, p: Seq<u8>, i: nat) -> Seq<u8>
    decreases i,
{
    let chain = if i == 0 { iv } else { cbc_block(w, nr, iv, p, (i - 1) as nat) };
    cipher(xor_spec(block_at(p, i as int), chain), w, nr)
}

/// The first `n` ciphertext blocks of the padded plaintext `p`, concatenated.
pub open spec fn cbc_blocks(w: Seq<u8>, nr: nat, iv: Seq<u8>, p: Seq<u8>, n: nat) -> Seq<u8> {
    Seq::new(16 * n, |j: int| cbc_block(w, nr, iv, p, (j / 16) as nat)[j % 16])
}

/// CBC encryption: the IV followed by the chained encryption of the padded data.
pub open spec fn cbc_encrypt_spec(w: Seq<u8>, nr: nat, iv: Seq<u8>, data: Seq<u8>) -> Seq<u8> {
    let p = pad_spec(data);
    iv + cbc_blocks(w, nr, iv, p, p.len() / 16)
}

/// The padded plaintext of `c` (the IV followed by the ciphertext blocks):
/// block `i` is the decryption of ciphertext block `i` XOR the block before it.
pub open spec fn cbc_plain_blocks(w: Seq<u8>, nr: nat, c: Seq<u8>) -> Seq<u8> {
    Seq::new(
        (c.len() - 16) as nat,
        |j: int| xor_spec(inv_cipher(block_at(c, j / 16 + 1), w, nr), block_at(c, j / 16))[j % 16],
    )
}

/// CBC decryption of the IV followed by the ciphertext, padding removed.
pub open spec fn cbc_decrypt_spec(w: Seq<u8>, nr: nat, c: Seq<u8>) -> Result<Seq<u8>, AesError> {
    if c.len() < 16 {
        Err(AesError::Truncated)
    } else if c.len() % 16 != 0 {
        Err(AesError::NotBlockAligned)
    } else {
        match unpad_spec(cbc_plain_blocks(w, nr, c)) {
            Some(p) => Ok(p),
            None => Err(AesError::BadPadding),
        }
    }
}

proof fn lemma_cbc_block_len(w: Seq<u8>, nr: nat, iv: Seq<u8>, p: Seq<u8>, i: nat)
    requires
        schedule_fits(w, nr),
        iv.len() == 16,
        16 * i + 16 <= p.len(),
    ensures
        cbc_block(w, nr, iv, p, i).len() == 16,
    decreases i,
{
    if i > 0 {
        lemma_cbc_block_len(w, nr, iv, p, (i - 1) as nat);
    }
    let chain = if i == 0 { iv } else { cbc_block(w, nr, iv, p, (i - 1) as nat) };
    lemma_cipher_inverse(xor_spec(block_at(p, i as int), chain), w, nr);
}

proof fn lemma_cbc_blocks_step(w: Seq<u8>, nr: nat, iv: Seq<u8>, p: Seq<u8>, n: nat)
    requires
        schedule_fits(w, nr),
        iv.len() == 16,
        16 * n + 16 <= p.len(),
    ensures
        cbc_blocks(w, nr, iv, p, n + 1) == cbc_blocks(w, nr, iv, p, n) + cbc_block(w, nr, iv, p, n),
{
    lemma_cbc_block_len(w, nr, iv, p, n);
    let next = cbc_blocks(w, nr, iv, p, n) + cbc_block(w, nr, iv, p, n);
    assert forall|j: int| 0 <= j < 16 * (n + 1) implies #[trigger] cbc_blocks(w, nr, iv, p, n + 1)[j] == next[j] by {
        if j >= 16 * n {
            assert(j / 16 == n);
        }
    }
    assert(cbc_blocks(w, nr, iv, p, n + 1) =~= next);
}

/// The plaintext blocks `1..n` of `c` (the IV followed by ciphertext blocks).
spec fn cbc_plain_prefix(w: Seq<u8>, nr: nat, c: Seq<u8>, n: nat) -> Seq<u8> {
    Seq::new(
        16 * n,
        |j: int| xor_spec(inv_cipher(block_at(c, j / 16 + 1), w, nr), block_at(c, j / 16))[j % 16],
    )
}

proof fn lemma_cbc_plain_step(w: Seq<u8>, nr: nat, c: Seq<u8>, n: nat, state: Seq<u8>)
    requires
        state == xor_spec(inv_cipher(block_at(c, n + 1 as int), w, nr), block_at(c, n as int)),
        state.len() == 16,
    ensures
        cbc_plain_prefix(w, nr, c, n + 1) == cbc_plain_prefix(w, nr, c, n) + state,
{
    let next = cbc_plain_prefix(w, nr, c, n) + state;
    assert forall|j: int| 0 <= j < 16 * (n + 1) implies #[trigger] cbc_plain_prefix(w, nr, c, n + 1)[j] == next[j] by {
        if j >= 16 * n {
            assert(j / 16 == n);
        }
    }
    assert(cbc_plain_prefix(w, nr, c, n + 1) =~= next);
}

/// Encrypts `data` under `key` with the 16-byte `iv`; the output is the IV
/// followed by the ciphertext blocks.
pub fn encrypt(key: &Key, iv: &Block, data: &Vec<u8>) -> (r: Vec<u8>)
    requires
        key.wf(),
        data@.len() + 32 <= usize::MAX,
    ensures
        r@ == cbc_encrypt_spec(key.schedule(), key.rounds(), iv@, data@),
{
    let nr = key.num_rounds();
    let w = key.expanded();
    let padded = add_padding(data);
    proof {
        lemma_padding(data@);
    }
    let blocks = split_blocks(&padded);
    let n = blocks.len();
    let ghost p = padded@;
    assert(16 * n == p.len());
    let mut out: Vec<u8> = Vec::with_capacity(padded.len() + 16);
    push_block(&mut out, iv);
    let mut chain: Block = *iv;
    let mut i: usize = 0;
    while i < n
        invariant
            i <= n,
            n == blocks@.len(),
            16 * n == p.len(),
            p == pad_spec(data@),
            schedule_fits(w@, nr as nat),
            w@ == key.schedule(),
            nr == key.rounds(),
            forall|m: int| 0 <= m < n ==> #[trigger] blocks@[m]@ == block_at(p, m),
            chain@ == if i == 0 { iv@ } else { cbc_block(w@, nr as nat, iv@, p, (i - 1) as nat) },
            out@ == iv@ + cbc_blocks(w@, nr as nat, iv@, p, i as nat),
        decreases n - i,
    {
        let mut state = blocks[i];
        xor_block(&chain, &mut state);
        encrypt_block(w, nr, &mut state);
        proof {
            lemma_cbc_blocks_step(w@, nr as nat, iv@, p, i as nat);
        }
        push_block(&mut out, &state);
        assert(out@ =~= iv@ + cbc_blocks(w@, nr as nat, iv@, p, (i + 1) as nat));
        chain = state;
        i += 1;
    }
    out
}

/// Decrypts the IV followed by the ciphertext blocks and removes the padding.
pub fn decrypt(key: &Key, data: &Vec<u8>) -> (r: Result<Vec<u8>, AesError>)
    requires
        key.wf(),
    ensures
        match cbc_decrypt_spec(key.schedule(), key.rounds(), data@) {
            Ok(p) => r is Ok && r->Ok_0@ == p,
            Err(e) => r is Err && r->Err_0 == e,
        },
{
    let nr = key.num_rounds();
    let w = key.expanded();
    let len = data.len();
    if len < 16 {
        return Err(AesError::Truncated);
    }
    if len % 16 != 0 {
        return Err(AesError::NotBlockAligned);
    }
    let blocks = split_blocks(data);
    let n = blocks.len();
    let ghost c = data@;
    assert(16 * n == c.len());
    let mut plain: Vec<u8> = Vec::with_capacity(len - 16);
    let mut i: usize = 1;
    while i < n
        invariant
            1 <= i <= n,
            n == blocks@.len(),
            16 * n == c.len(),
            schedule_fits(w@, nr as nat),
            w@ == key.schedule(),
            nr == key.rounds(),
            forall|m: int| 0 <= m < n ==> #[trigger] blocks@[m]@ == block_at(c, m),
            plain@ == cbc_plain_prefix(w@, nr as nat, c, (i - 1) as nat),
        decreases n - i,
    {
        let mut state = blocks[i];
        decrypt_block(w, nr, &mut state);
        xor_block(&blocks[i - 1], &mut state);
        proof {
            lemma_cbc_plain_step(w@, nr as nat, c, (i - 1) as nat, state@);
        }
        push_block(&mut plain, &state);
        i += 1;
    }
    assert(plain@ =~= cbc_plain_blocks(w@, nr as nat, c));
    match remove_padding(&mut plain) {
        Ok(()) => Ok(plain),
        Err(e) => Err(e),
    }
}

proof fn lemma_cbc_block_decrypts(w: Seq<u8>, nr: nat, iv: Seq<u8>, p: Seq<u8>, i: nat)
    requires
        schedule_fits(w, nr),
        iv.len() == 16,
        p.len() % 16 == 0,
        16 * i + 16 <= p.len(),
    ensures
        ({
            let c = iv + cbc_blocks(w, nr, iv, p, p.len() / 16);
            xor_spec(inv_cipher(block_at(c, i + 1 as int), w, nr), block_at(c, i as int)) == block_at(p, i as int)
        }),
{
    let n = p.len() / 16;
    let c = iv + cbc_blocks(w, nr, iv, p, n);
    let chain = if i == 0 { iv } else { cbc_block(w, nr, iv, p, (i - 1) as nat) };
    if i > 0 {
        lemma_cbc_block_len(w, nr, iv, p, (i - 1) as nat);
    }
    lemma_cbc_block_len(w, nr, iv, p, i);
    let cur = cbc_block(w, nr, iv, p, i);
    assert forall|k: int| 0 <= k < 16 implies #[trigger] block_at(c, i + 1 as int)[k] == cur[k] by {
        assert((16 * i + k) / 16 == i);
    }
    assert(block_at(c, i + 1 as int) =~= cur);
    if i == 0 {
        assert(block_at(c, 0) =~= iv);
    } else {
        assert forall|k: int| 0 <= k < 16 implies #[trigger] block_at(c, i as int)[k] == chain[k] by {
            assert((16 * (i - 1) + k) / 16 == i - 1);
        }
        assert(block_at(c, i as int) =~= chain);
    }
    let x = xor_spec(block_at(p, i as int), chain);
    lemma_cipher_inverse(x, w, nr);
    lemma_xor_twice(block_at(p, i as int), chain);
}

/// Decrypting what CBC encryption produced gives back the plaintext, for
/// every key, IV and plaintext.
pub proof fn lemma_cbc_round_trip(key: Key, iv: Seq<u8>, data: Seq<u8>)
    requires
        key.wf(),
        iv.len() == 16,
    ensures
        cbc_decrypt_spec(key.schedule(), key.rounds(), cbc_encrypt_spec(key.schedule(), key.rounds(), iv, data))
            == Ok::<Seq<u8>, AesError>(data),
{
    let (w, nr) = (key.schedule(), key.rounds());
    let p = pad_spec(data);
    lemma_padding(data);
    let n = p.len() / 16;
    let c = cbc_encrypt_spec(w, nr, iv, data);
    assert(c.len() == 16 + 16 * n);
    let plain = cbc_plain_blocks(w, nr, c);
    assert forall|j: int| 0 <= j < p.len() implies #[trigger] plain[j] == p[j] by {
        let i = j / 16;
        lemma_cbc_block_decrypts(w, nr, iv, p, i as nat);
    }
    assert(plain =~= p);
}

/// Encryptions of the same data under two different IVs differ, and not
/// only in the IV in front: their first ciphertext blocks differ too.
pub proof fn lemma_cbc_distinct_ivs(key: Key, iv1: Seq<u8>, iv2: Seq<u8>, data: Seq<u8>)
    requires
        key.wf(),
        iv1.len() == 16,
        iv2.len() == 16,
        iv1 != iv2,
    ensures
        cbc_encrypt_spec(key.schedule(), key.rounds(), iv1, data) != cbc_encrypt_spec(
            key.schedule(),
            key.rounds(),
            iv2,
            data,
        ),
        cbc_encrypt_spec(key.schedule(), key.rounds(), iv1, data).subrange(16, 32) != cbc_encrypt_spec(
            key.schedule(),
            key.rounds(),
            iv2,
            data,
        ).subrange(16, 32),
{
    let (w, nr) = (key.schedule(), key.rounds());
    let p = pad_spec(data);
    lemma_padding(data);
    let c1 = cbc_encrypt_spec(w, nr, iv1, data);
    let c2 = cbc_encrypt_spec(w, nr, iv2, data);
    assert(c1.subrange(16, 32) =~= cbc_block(w, nr, iv1, p, 0));
    assert(c2.subrange(16, 32) =~= cbc_block(w, nr, iv2, p, 0));
    let b = block_at(p, 0);
    let x1 = xor_spec(b, iv1);
    let x2 = xor_spec(b, iv2);
    lemma_cipher_inverse(x1, w, nr);
    lemma_cipher_inverse(x2, w, nr);
    if c1.subrange(16, 32) == c2.subrange(16, 32) {
        assert(x1 == x2);
        assert forall|i: int| 0 <= i < 16 implies iv1[i] == iv2[i] by {
            let (bb, u, v) = (b[i], iv1[i], iv2[i]);
            assert(x1[i] == x2[i]);
            assert((bb ^ u) == (bb ^ v) ==> u == v) by (bit_vector);
        }
        assert(iv1 =~= iv2);
    }
}

/// The CBC output is the IV plus the data rounded up to the next whole block:
/// padding adds 1 to 16 bytes, a whole block when the data is block-aligned.
pub proof fn lemma_cbc_output_length(key: Key, iv: Seq<u8>, data: Seq<u8>)
    requires
        key.wf(),
        iv.len() == 16,
    ensures
        cbc_encrypt_spec(key.schedule(), key.rounds(), iv, data).len() == 16 + 16 * (data.len() / 16 + 1),
{
    lemma_padding(data);
}

} // verus!
