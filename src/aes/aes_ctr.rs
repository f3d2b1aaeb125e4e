//! Counter mode: the data is XORed with the encryptions of successive counter
//! blocks. Encryption and decryption are the same operation.
use vstd::prelude::*;

use crate::aes::key::Key;
use crate::aes::{cipher, encrypt_block, push_block, schedule_fits, AesError, Block};

verus! {

/// The counter block after `b`: the trailing 32-bit big-endian field plus one,
/// wrapping within the field; the first 12 bytes stay.
pub open spec fn inc32_spec(b: Seq<u8>) -> Seq<u8> {
    if b[15] != 255 {
        b.update(15, (b[15] + 1) as u8)
    } else if b[14] != 255 {
        b.update(15, 0).update(14, (b[14] + 1) as u8)
    } else if b[13] != 255 {
        b.update(15, 0).update(14, 0).update(13, (b[13] + 1) as u8)
    } else if b[12] != 255 {
        b.update(15, 0).update(14, 0).update(13, 0).update(12, (b[12] + 1) as u8)
    } else {
        b.update(15, 0).update(14, 0).update(13, 0).update(12, 0)
    }
}

/// Counter block `j` from the initial counter block `nonce`.
pub open spec fn counter_block(nonce: Seq<u8>, j: nat) -> Seq<u8>
    decreases j,
{
    if j == 0 {
        nonce
    } else {
        inc32_spec(counter_block(nonce, (j - 1) as nat))
    }
}

/// Keystream block `j`.
pub open spec fn keystream_block(w: Seq<u8>, nr: nat, nonce: Seq<u8>, j: nat) -> Seq<u8> {
    cipher(counter_block(nonce, j), w, nr)
}

/// The data XORed with the keystream that starts at counter block `nonce`;
/// a final partial block uses only as many keystream bytes as it needs.
pub open spec fn ctr_apply_spec(w: Seq<u8>, nr: nat, nonce: Seq<u8>, data: Seq<u8>) -> Seq<u8> {
    Seq::new(data.len(), |i: int| data[i] ^ keystream_block(w, nr, nonce, (i / 16) as nat)[i % 16])
}

/// CTR encryption: the initial counter block followed by the transformed data.
pub open spec fn ctr_encrypt_spec(w: Seq<u8>, nr: nat, nonce: Seq<u8>, data: Seq<u8>) -> Seq<u8> {
    nonce + ctr_apply_spec(w, nr, nonce, data)
}

/// CTR decryption of the initial counter block followed by the ciphertext.
pub open spec fn ctr_decrypt_spec(w: Seq<u8>, nr: nat, c: Seq<u8>) -> Result<Seq<u8>, AesError> {
    if c.len() < 16 {
        Err(AesError::Truncated)
    } else {
        Ok(ctr_apply_spec(w, nr, c.subrange(0, 16), c.subrange(16, c.len() as int)))
    }
}

proof fn lemma_counter_block_len(nonce: Seq<u8>, j: nat)
    requires
        nonce.len() == 16,
    ensures
        counter_block(nonce, j).len() == 16,
    decreases j,
{
    if j > 0 {
        lemma_counter_block_len(nonce, (j - 1) as nat);
    }
}

/// Increments the trailing 32-bit big-endian counter field, wrapping.
pub fn inc32(block: &mut Block)
    ensures
        final(block)@ == inc32_spec(old(block)@),
{
    let mut i: usize = 16;
    let mut carry = true;
    while carry && i > 12
        invariant
            12 <= i <= 16,
            carry ==> forall|m: int| i <= m < 16 ==> block@[m] == 0 && old(block)@[m] == 255,
            !carry ==> i >= 12 && i < 16 && block@[i as int] == old(block)@[i as int] + 1 && forall|m: int|
                i < m < 16 ==> block@[m] == 0 && old(block)@[m] == 255,
            forall|m: int| 0 <= m < i ==> block@[m] == old(block)@[m],
        decreases i,
    {
        i -= 1;
        if block[i] == 255 {
            block[i] = 0;
        } else {
            block[i] = block[i] + 1;
            carry = false;
        }
    }
    assert(block@ =~= inc32_spec(old(block)@));
}

/// XORs `data` with the keystream that starts at counter block `counter`.
pub(crate) fn keystream_xor(round_keys: &Vec<u8>, nr: usize, counter: &Block, data: &Vec<u8>) -> (r: Vec<u8>)
    requires
        schedule_fits(round_keys@, nr as nat),
    ensures
        r@ == ctr_apply_spec(round_keys@, nr as nat, counter@, data@),
{
    let len = data.len();
    let mut out: Vec<u8> = Vec::with_capacity(len);
    let mut ctr: Block = *counter;
    let mut pos: usize = 0;
    let ghost mut j: nat = 0;
    while pos < len
        invariant
            pos <= len,
            len == data@.len(),
            pos == 16 * j || pos == len,
            pos < len ==> pos == 16 * j,
            schedule_fits(round_keys@, nr as nat),
            ctr@ == counter_block(counter@, j),
            out@.len() == pos,
            forall|i: int| 0 <= i < pos ==> #[trigger] out@[i] == data@[i] ^ keystream_block(
                round_keys@,
                nr as nat,
                counter@,
                (i / 16) as nat,
            )[i % 16],
        decreases len - pos,
    {
        let mut ks = ctr;
        encrypt_block(round_keys, nr, &mut ks);
        let take: usize = if len - pos < 16 { len - pos } else { 16 };
        let mut k: usize = 0;
        while k < take
            invariant
                k <= take <= 16,
                pos + take <= len,
                len == data@.len(),
                pos == 16 * j,
                ks@ == keystream_block(round_keys@, nr as nat, counter@, j),
                out@.len() == pos + k,
                forall|i: int| 0 <= i < pos + k ==> #[trigger] out@[i] == data@[i] ^ keystream_block(
                    round_keys@,
                    nr as nat,
                    counter@,
                    (i / 16) as nat,
                )[i % 16],
            decreases take - k,
        {
            out.push(data[pos + k] ^ ks[k]);
            proof {
                let i = pos + k;
                assert(i / 16 == j && i % 16 == k as int);
            }
            k += 1;
        }
        inc32(&mut ctr);
        pos += take;
        proof {
            j = j + 1;
        }
    }
    assert(out@ =~= ctr_apply_spec(round_keys@, nr as nat, counter@, data@));
    out
}

/// The CTR transform of `data` under `key`, starting at counter block `nonce`.
/// Applied twice with the same key and nonce it gives the data back.
pub fn apply_keystream(key: &Key, nonce: &Block, data: &Vec<u8>) -> (r: Vec<u8>)
    requires
        key.wf(),
    ensures
        r@ == ctr_apply_spec(key.schedule(), key.rounds(), nonce@, data@),
{
    let nr = key.num_rounds();
    keystream_xor(key.expanded(), nr, nonce, data)
}

/// Encrypts `data`; the output is the initial counter block followed by the
/// ciphertext, which is as long as the data.
pub fn encrypt(key: &Key, nonce: &Block, data: &Vec<u8>) -> (r: Vec<u8>)
    requires
        key.wf(),
    ensures
        r@ == ctr_encrypt_spec(key.schedule(), key.rounds(), nonce@, data@),
{
    let body = apply_keystream(key, nonce, data);
    let mut out: Vec<u8> = Vec::new();
    push_block(&mut out, nonce);
    let mut body = body;
    out.append(&mut body);
    out
}

/// Decrypts the initial counter block followed by the ciphertext.
pub fn decrypt(key: &Key, data: &Vec<u8>) -> (r: Result<Vec<u8>, AesError>)
    requires
        key.wf(),
    ensures
        match ctr_decrypt_spec(key.schedule(), key.rounds(), data@) {
            Ok(p) => r is Ok && r->Ok_0@ == p,
            Err(e) => r is Err && r->Err_0 == e,
        },
{
    let len = data.len();
    if len < 16 {
        return Err(AesError::Truncated);
    }
    let mut nonce: Block = [0u8; 16];
    let mut k: usize = 0;
    while k < 16
        invariant
            k <= 16,
            len == data@.len(),
            len >= 16,
            forall|m: int| 0 <= m < k ==> nonce@[m] == data@[m],
        decreases 16 - k,
    {
        nonce[k] = data[k];
        k += 1;
    }
    assert(nonce@ =~= data@.subrange(0, 16));
    let mut body: Vec<u8> = Vec::with_capacity(len - 16);
    let mut i: usize = 16;
    while i < len
        invariant
            16 <= i <= len,
            len == data@.len(),
            body@ == data@.subrange(16, i as int),
        decreases len - i,
    {
        body.push(data[i]);
        i += 1;
        assert(body@ =~= data@.subrange(16, i as int));
    }
    Ok(apply_keystream(key, &nonce, &body))
}

/// The CTR transform is its own inverse under the same key and nonce.
pub proof fn lemma_ctr_self_inverse(key: Key, nonce: Seq<u8>, data: Seq<u8>)
    requires
        key.wf(),
    ensures
        ctr_apply_spec(key.schedule(), key.rounds(), nonce, ctr_apply_spec(key.schedule(), key.rounds(), nonce, data))
            == data,
{
    let (w, nr) = (key.schedule(), key.rounds());
    let twice = ctr_apply_spec(w, nr, nonce, ctr_apply_spec(w, nr, nonce, data));
    assert forall|i: int| 0 <= i < data.len() implies #[trigger] twice[i] == data[i] by {
        let (x, k) = (data[i], keystream_block(w, nr, nonce, (i / 16) as nat)[i % 16]);
        assert((x ^ k) ^ k == x) by (bit_vector);
    }
    assert(twice =~= data);
}

/// Flipping bits of one ciphertext byte flips the same bits of the same
/// plaintext byte and changes nothing else.
pub proof fn lemma_ctr_bit_flip(key: Key, nonce: Seq<u8>, c: Seq<u8>, pos: int, mask: u8)
    requires
        key.wf(),
        0 <= pos < c.len(),
    ensures
        ({
            let (w, nr) = (key.schedule(), key.rounds());
            let p = ctr_apply_spec(w, nr, nonce, c);
            ctr_apply_spec(w, nr, nonce, c.update(pos, c[pos] ^ mask)) == p.update(pos, p[pos] ^ mask)
        }),
{
    let (w, nr) = (key.schedule(), key.rounds());
    let p = ctr_apply_spec(w, nr, nonce, c);
    let q = ctr_apply_spec(w, nr, nonce, c.update(pos, c[pos] ^ mask));
    assert forall|i: int| 0 <= i < c.len() implies #[trigger] q[i] == p.update(pos, p[pos] ^ mask)[i] by {
        if i == pos {
            let (x, k) = (c[i], keystream_block(w, nr, nonce, (i / 16) as nat)[i % 16]);
            assert((x ^ mask) ^ k == (x ^ k) ^ mask) by (bit_vector);
        }
    }
    assert(q =~= p.update(pos, p[pos] ^ mask));
}

/// Decrypting what CTR encryption produced gives back the plaintext.
pub proof fn lemma_ctr_round_trip(key: Key, nonce: Seq<u8>, data: Seq<u8>)
    requires
        key.wf(),
        nonce.len() == 16,
    ensures
        ctr_decrypt_spec(key.schedule(), key.rounds(), ctr_encrypt_spec(key.schedule(), key.rounds(), nonce, data))
            == Ok::<Seq<u8>, AesError>(data),
{
    let (w, nr) = (key.schedule(), key.rounds());
    let c = ctr_encrypt_spec(w, nr, nonce, data);
    assert(c.subrange(0, 16) =~= nonce);
    assert(c.subrange(16, c.len() as int) =~= ctr_apply_spec(w, nr, nonce, data));
    lemma_ctr_self_inverse(key, nonce, data);
}

} // verus!
