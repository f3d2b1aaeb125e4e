//! The key that the command-line tool keeps in a file: raw bytes with their
//! schedule, usable with every mode of the engine.
use vstd::prelude::*;

use crate::aes::key::{valid_key_len, Key as AesKey};
use crate::aes::AesError;

verus! {

/// A file-backed AES key.
pub struct Key {
    inner: AesKey,
}

impl Key {
    /// The engine key this file key holds.
    pub closed spec fn aes_key(&self) -> AesKey {
        self.inner
    }

    /// The held key is well formed.
    pub open spec fn wf(&self) -> bool {
        self.aes_key().wf()
    }

    /// A fresh random key of `size` bytes (16, 24 or 32). When the random
    /// source fails, the error says so.
    pub fn new(size: usize) -> (r: Result<Self, AesError>)
        ensures
            !valid_key_len(size as nat) <==> r == Err::<Self, AesError>(AesError::InvalidKeySize),
            r is Err ==> r->Err_0 == AesError::InvalidKeySize || r->Err_0 == AesError::RandomSourceFailed,
            r is Ok ==> r->Ok_0.wf() && r->Ok_0.aes_key().raw().len() == size,
    {
        if !(size == 16 || size == 24 || size == 32) {
            return Err(AesError::InvalidKeySize);
        }
        let inner = AesKey::new(size * 8)?;
        Ok(Self { inner })
    }

    /// The key made of the bytes read from a key file.
    pub fn from_bytes(bytes: &[u8]) -> (r: Result<Self, AesError>)
        ensures
            r is Err <==> !valid_key_len(bytes@.len()),
            r is Err ==> r->Err_0 == AesError::InvalidKeySize,
            r is Ok ==> r->Ok_0.wf() && r->Ok_0.aes_key().raw() == bytes@,
    {
        let inner = AesKey::from(bytes)?;
        Ok(Self { inner })
    }

    /// The raw key bytes, as they are written to a key file.
    pub fn raw_bytes(&self) -> (r: &Vec<u8>)
        ensures
            r@ == self.aes_key().raw(),
    {
        self.inner.vec()
    }

    /// The engine key, for use with any mode.
    pub fn aes(&self) -> (r: &AesKey)
        ensures
            *r == self.aes_key(),
    {
        &self.inner
    }

    /// The expanded round-key schedule.
    pub fn as_ref(&self) -> (r: &Vec<u8>)
        ensures
            r@ == self.aes_key().schedule(),
    {
        self.inner.expanded()
    }
}

} // verus!
