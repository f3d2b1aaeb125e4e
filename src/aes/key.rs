//! AES keys and the key schedule.
use vstd::prelude::*;

use crate::aes::consts::{s_box, sbox, RCON};
use crate::aes::{schedule_fits, AesError};
use crate::utils::rand_bytes;

verus! {

/// A key length in bytes that AES accepts.
pub open spec fn valid_key_len(len: nat) -> bool {
    len == 16 || len == 24 || len == 32
}

/// Nr, the number of rounds for a key of `len` bytes.
pub open spec fn key_rounds(len: nat) -> nat {
    if len == 16 {
        10
    } else if len == 24 {
        12
    } else {
        14
    }
}

/// SubWord: each byte of a word through the forward S-box.
pub open spec fn sub_word(t: Seq<u8>) -> Seq<u8> {
    Seq::new(4, |j: int| sbox(t[j]))
}

/// RotWord: a word rotated left by one byte.
pub open spec fn rot_word(t: Seq<u8>) -> Seq<u8> {
    Seq::new(4, |j: int| t[(j + 1) % 4])
}

/// The transformation applied to the previous word before word `i` is formed.
pub open spec fn schedule_core(t: Seq<u8>, i: nat, nk: nat) -> Seq<u8> {
    if i % nk == 0 {
        let u = sub_word(rot_word(t));
        u.update(0, u[0] ^ RCON[(i / nk) as int])
    } else if nk > 6 && i % nk == 4 {
        sub_word(t)
    } else {
        t
    }
}

/// Word `i` (4 bytes) of the key schedule of `key`.
pub open spec fn key_word(key: Seq<u8>, i: nat) -> Seq<u8>
    decreases i,
{
    let nk = key.len() / 4;
    if i < nk {
        key.subrange(4 * i as int, 4 * i as int + 4)
    } else if nk == 0 {
        Seq::empty()
    } else {
        let prev = schedule_core(key_word(key, (i - 1) as nat), i, nk);
        let back = key_word(key, (i - nk) as nat);
        Seq::new(4, |j: int| prev[j] ^ back[j])
    }
}

/// The expanded schedule of `key`: `16 * (Nr + 1)` bytes, word after word.
pub open spec fn expand_spec(key: Seq<u8>) -> Seq<u8> {
    Seq::new(16 * (key_rounds(key.len()) + 1), |j: int| key_word(key, (j / 4) as nat)[j % 4])
}

/// The schedule of a well-formed key has one round key per round, plus one.
pub open spec fn schedule_fits_key(k: &Key) -> bool {
    schedule_fits(k.schedule(), k.rounds())
}

/// An AES key together with its expanded schedule.
#[derive(Clone, Debug)]
pub struct Key {
    key: Vec<u8>,
    expanded: Vec<u8>,
    size_bits: usize,
    size_bytes: usize,
}

impl Key {
    /// The raw key bytes.
    pub closed spec fn raw(&self) -> Seq<u8> {
        self.key@
    }

    /// The expanded schedule held by the key.
    pub closed spec fn schedule(&self) -> Seq<u8> {
        self.expanded@
    }

    /// The key size in bits that the key records.
    pub closed spec fn bits(&self) -> nat {
        self.size_bits as nat
    }

    /// The key size in bytes that the key records.
    pub closed spec fn bytes(&self) -> nat {
        self.size_bytes as nat
    }

    /// The key has a valid size and holds the schedule of its raw bytes.
    pub open spec fn wf(&self) -> bool {
        &&& valid_key_len(self.raw().len())
        &&& self.schedule() == expand_spec(self.raw())
        &&& self.bytes() == self.raw().len()
        &&& self.bits() == 8 * self.raw().len()
    }

    /// Nr for this key.
    pub open spec fn rounds(&self) -> nat {
        key_rounds(self.raw().len())
    }

    /// A fresh random key of `size_bits` bits (128, 192 or 256). When the
    /// random source fails, the error says so.
    pub fn new(size_bits: usize) -> (r: Result<Self, AesError>)
        ensures
            !(size_bits == 128 || size_bits == 192 || size_bits == 256) <==> r == Err::<Self, AesError>(
                AesError::InvalidKeySize,
            ),
            r is Err ==> r->Err_0 == AesError::InvalidKeySize || r->Err_0 == AesError::RandomSourceFailed,
            r is Ok ==> r->Ok_0.wf() && r->Ok_0.bits() == size_bits,
    {
        Self::validate_size_bits(size_bits)?;
        let size_bytes = size_bits / 8;
        let key = match rand_bytes(size_bytes) {
            Some(bytes) => bytes,
            None => return Err(AesError::RandomSourceFailed),
        };
        let expanded = Self::expand(&key);
        Ok(Self { key, expanded, size_bits, size_bytes })
    }

    /// The key made of the given bytes (16, 24 or 32 of them).
    pub fn from(key: &[u8]) -> (r: Result<Self, AesError>)
        ensures
            r is Err <==> !valid_key_len(key@.len()),
            r is Err ==> r->Err_0 == AesError::InvalidKeySize,
            r is Ok ==> r->Ok_0.wf() && r->Ok_0.raw() == key@,
    {
        let size_bytes = key.len();
        if !(size_bytes == 16 || size_bytes == 24 || size_bytes == 32) {
            return Err(AesError::InvalidKeySize);
        }
        let size_bits = size_bytes * 8;
        let mut owned: Vec<u8> = Vec::with_capacity(size_bytes);
        let mut i: usize = 0;
        while i < size_bytes
            invariant
                i <= size_bytes,
                size_bytes == key@.len(),
                owned@ == key@.subrange(0, i as int),
            decreases size_bytes - i,
        {
            owned.push(key[i]);
            i += 1;
        }
        assert(owned@ =~= key@);
        let expanded = Self::expand(&owned);
        Ok(Self { key: owned, expanded, size_bits, size_bytes })
    }

    fn validate_size_bits(size: usize) -> (r: Result<(), AesError>)
        ensures
            r is Ok <==> (size == 128 || size == 192 || size == 256),
            r is Err ==> r->Err_0 == AesError::InvalidKeySize,
    {
        if size == 128 || size == 192 || size == 256 {
            Ok(())
        } else {
            Err(AesError::InvalidKeySize)
        }
    }

    /// Expands a raw key into its round-key schedule.
    pub fn expand(key: &Vec<u8>) -> (r: Vec<u8>)
        requires
            valid_key_len(key@.len()),
        ensures
            r@ == expand_spec(key@),
    {
        let key_len = key.len();
        let (nr, nk): (usize, usize) = if key_len == 16 {
            (10, 4)
        } else if key_len == 24 {
            (12, 6)
        } else {
            (14, 8)
        };
        let words = 4 * (nr + 1);
        let mut schedule: Vec<u8> = Vec::with_capacity(4 * words);
        let mut j: usize = 0;
        while j < key_len
            invariant
                j <= key_len,
                key_len == key@.len(),
                schedule@ == key@.subrange(0, j as int),
            decreases key_len - j,
        {
            schedule.push(key[j]);
            j += 1;
        }
        assert forall|b: int| 0 <= b < key_len implies #[trigger] schedule@[b] == key_word(key@, (b / 4) as nat)[b % 4] by {
            assert(key@.len() / 4 == nk);
        }
        let mut i: usize = nk;
        while i < words
            invariant
                nk <= i <= words,
                key_len == key@.len(),
                valid_key_len(key_len as nat),
                nk == key_len / 4,
                nr == key_rounds(key_len as nat),
                words == 4 * (nr + 1),
                schedule@.len() == 4 * i,
                forall|b: int| 0 <= b < 4 * i ==> #[trigger] schedule@[b] == key_word(key@, (b / 4) as nat)[b % 4],
            decreases words - i,
        {
            let ghost prev_word = key_word(key@, (i - 1) as nat);
            let ghost back_word = key_word(key@, (i - nk) as nat);
            let p = 4 * i - 4;
            assert(schedule@[p + 0] == prev_word[0] && schedule@[p + 1] == prev_word[1]);
            assert(schedule@[p + 2] == prev_word[2] && schedule@[p + 3] == prev_word[3]);
            let mut word: [u8; 4] = [schedule[p], schedule[p + 1], schedule[p + 2], schedule[p + 3]];
            assert(word@ =~= prev_word);
            if i % nk == 0 {
                word = [s_box(word[1]), s_box(word[2]), s_box(word[3]), s_box(word[0])];
                assert(i / nk <= 10) by {
                    if nk == 4 {
                        assert(i < 44);
                    } else if nk == 6 {
                        assert(i < 52);
                    } else {
                        assert(i < 60);
                    }
                }
                word[0] = word[0] ^ RCON[i / nk];
            } else if nk > 6 && i % nk == 4 {
                word = [s_box(word[0]), s_box(word[1]), s_box(word[2]), s_box(word[3])];
            }
            assert(word@ =~= schedule_core(prev_word, i as nat, nk as nat));
            let q = 4 * (i - nk);
            let mut k: usize = 0;
            while k < 4
                invariant
                    k <= 4,
                    q == 4 * (i - nk),
                    1 <= nk <= i,
                    schedule@.len() == 4 * i + k,
                    forall|b: int| 0 <= b < 4 * i ==> #[trigger] schedule@[b] == key_word(key@, (b / 4) as nat)[b % 4],
                    forall|m: int| 0 <= m < k ==> #[trigger] schedule@[4 * i + m] == word@[m] ^ back_word[m],
                    forall|m: int| 0 <= m < 4 ==> #[trigger] schedule@[q + m] == back_word[m],
                decreases 4 - k,
            {
                let b = word[k] ^ schedule[q + k];
                schedule.push(b);
                k += 1;
            }
            assert forall|b: int| 0 <= b < 4 * (i + 1) implies #[trigger] schedule@[b] == key_word(key@, (b / 4) as nat)[b % 4] by {
                if b >= 4 * i {
                    let m = b - 4 * i;
                    assert(schedule@[4 * i + m] == word@[m] ^ back_word[m]);
                }
            }
            i += 1;
        }
        assert(schedule@ =~= expand_spec(key@));
        schedule
    }

    /// Nr, the number of rounds of this key.
    pub(crate) fn num_rounds(&self) -> (r: usize)
        requires
            self.wf(),
        ensures
            r == self.rounds(),
            schedule_fits_key(self),
    {
        if self.size_bytes == 16 {
            10
        } else if self.size_bytes == 24 {
            12
        } else {
            14
        }
    }

    /// The raw key bytes.
    pub fn vec(&self) -> (r: &Vec<u8>)
        ensures
            r@ == self.raw(),
    {
        &self.key
    }

    /// The expanded round-key schedule.
    pub fn expanded(&self) -> (r: &Vec<u8>)
        ensures
            r@ == self.schedule(),
    {
        &self.expanded
    }

    /// The key size in bits.
    pub fn size_bits(&self) -> (r: usize)
        ensures
            r == self.bits(),
    {
        self.size_bits
    }

    /// The key size in bytes.
    pub fn size_bytes(&self) -> (r: usize)
        ensures
            r == self.bytes(),
    {
        self.size_bytes
    }
}

} // verus!
