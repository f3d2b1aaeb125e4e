//! CBC encryption of whole files under the file key: the IV travels in front
//! of the ciphertext.
use vstd::prelude::*;

use crate::aes::aes_cbc::{self, cbc_decrypt_spec, cbc_encrypt_spec};
use crate::aes::{AesError, Block};
use crate::key::Key;

verus! {

/// CBC over the file key.
pub struct AES256CBC;

impl AES256CBC {
    /// Encrypts `data` under `k` with the 16-byte `iv`; the output is the IV
    /// followed by the padded ciphertext.
    pub fn encrypt(k: &Key, iv: Vec<u8>, data: Vec<u8>) -> (r: Vec<u8>)
        requires
            k.wf(),
            iv@.len() == 16,
            data@.len() + 32 <= usize::MAX,
        ensures
            r@ == cbc_encrypt_spec(k.aes_key().schedule(), k.aes_key().rounds(), iv@, data@),
    {
        let mut block: Block = [0u8; 16];
        let mut i: usize = 0;
        while i < 16
            invariant
                i <= 16,
                iv@.len() == 16,
                forall|m: int| 0 <= m < i ==> block@[m] == iv@[m],
            decreases 16 - i,
        {
            block[i] = iv[i];
            i += 1;
        }
        assert(block@ =~= iv@);
        aes_cbc::encrypt(k.aes(), &block, &data)
    }

    /// Decrypts the IV followed by the ciphertext and removes the padding.
    pub fn decrypt(k: &Key, data: Vec<u8>) -> (r: Result<Vec<u8>, AesError>)
        requires
            k.wf(),
        ensures
            match cbc_decrypt_spec(k.aes_key().schedule(), k.aes_key().rounds(), data@) {
                Ok(p) => r is Ok && r->Ok_0@ == p,
                Err(e) => r is Err && r->Err_0 == e,
            },
    {
        aes_cbc::decrypt(k.aes(), &data)
    }
}

} // verus!
