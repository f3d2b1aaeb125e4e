//! The Rijndael block cipher: GF(2^8) arithmetic, the four round transforms and
//! their inverses, and the encryption and decryption of one block.
use vstd::prelude::*;

pub mod consts;
pub mod key;
pub mod aes_cbc;
pub mod aes_ctr;
pub mod aes_gcm;
mod aad;

use crate::aes::consts::{
    inv_s_box, inv_sbox, lemma_inv_sbox_inverse, lemma_sbox_inverse, s_box, sbox,
};

verus! {

/// What can go wrong when a key is built or a buffer is decrypted.
#[derive(Clone, Copy, Debug, PartialEq, Eq, Structural)]
pub enum AesError {
    /// The key is not 128, 192 or 256 bits long.
    InvalidKeySize,
    /// The buffer is too short to hold the parts the mode needs.
    Truncated,
    /// CBC ciphertext whose length is not a whole number of blocks.
    NotBlockAligned,
    /// The padding length byte of the recovered plaintext is 0 or too large.
    BadPadding,
    /// The GCM tag does not match: no plaintext is released.
    AuthenticationFailed,
    /// The random source could not deliver the bytes of a new key.
    RandomSourceFailed,
}

/// One AES block: a 4x4 byte matrix in column-major order
/// (byte `i` sits in row `i % 4`, column `i / 4`).
pub type Block = [u8; 16];

/// Multiplication by `x` in GF(2^8), reduced by `x^8 + x^4 + x^3 + x + 1`.
pub open spec fn xtime(a: u8) -> u8 {
    (a << 1u8) ^ ((a >> 7u8) * 0x1b) as u8
}

/// `n` steps of the shift-and-add product of `a` and `b` in GF(2^8).
pub open spec fn gf_mul_steps(a: u8, b: u8, n: nat) -> u8
    decreases n,
{
    if n == 0 {
        0
    } else {
        (if b & 1 != 0 { a } else { 0 }) ^ gf_mul_steps(xtime(a), b >> 1u8, (n - 1) as nat)
    }
}

/// The product of `a` and `b` in GF(2^8).
pub open spec fn gf_mul(a: u8, b: u8) -> u8 {
    gf_mul_steps(a, b, 8)
}

/// Multiplication by the constants of the (inverse) MixColumns matrix, in closed form.
pub proof fn lemma_gf_mul_constants(x: u8)
    by (bit_vector)
    ensures
        gf_mul(2, x) == xtime(x),
        gf_mul(3, x) == xtime(x) ^ x,
        gf_mul(9, x) == xtime(xtime(xtime(x))) ^ x,
        gf_mul(11, x) == xtime(xtime(xtime(x))) ^ xtime(x) ^ x,
        gf_mul(13, x) == xtime(xtime(xtime(x))) ^ xtime(xtime(x)) ^ x,
        gf_mul(14, x) == xtime(xtime(xtime(x))) ^ xtime(xtime(x)) ^ xtime(x),
{
}

/// Peasant multiplication in GF(2^8).
pub fn gmul(a: u8, b: u8) -> (r: u8)
    ensures
        r == gf_mul(a, b),
{
    let mut a = a;
    let mut b = b;
    let mut p: u8 = 0;
    let ghost target = gf_mul(a, b);
    let mut i: usize = 0;
    assert(0u8 ^ target == target) by (bit_vector);
    while i < 8
        invariant
            i <= 8,
            p ^ gf_mul_steps(a, b, (8 - i) as nat) == target,
        decreases 8 - i,
    {
        let ghost (pa, pb, pp) = (a, b, p);
        if b & 1 != 0 {
            p ^= a;
        }
        let carry = a & 0x80 != 0;
        a <<= 1;
        if carry {
            a ^= 0x1b;
        }
        b >>= 1;
        proof {
            let ghost rest = gf_mul_steps(xtime(pa), pb >> 1u8, (8 - i - 1) as nat);
            let ghost c: u8 = if pb & 1 != 0 { pa } else { 0 };
            assert(gf_mul_steps(pa, pb, (8 - i) as nat) == c ^ rest);
            assert(a == xtime(pa)) by (bit_vector)
                requires
                    carry == (pa & 0x80 != 0),
                    carry ==> a == ((pa << 1u8) ^ 0x1b),
                    !carry ==> a == pa << 1u8,
            ;
            assert(p ^ rest == target) by (bit_vector)
                requires
                    pp ^ (c ^ rest) == target,
                    pb & 1 != 0 ==> p == pp ^ pa && c == pa,
                    pb & 1 == 0 ==> p == pp && c == 0,
            ;
        }
        i += 1;
    }
    assert(p ^ 0 == p) by (bit_vector);
    p
}

/// Byte-wise XOR of `a` with the first `a.len()` bytes of `b`.
pub open spec fn xor_spec(a: Seq<u8>, b: Seq<u8>) -> Seq<u8> {
    Seq::new(a.len(), |i: int| a[i] ^ b[i])
}

/// SubBytes: every byte goes through the forward S-box.
pub open spec fn sub_bytes_spec(s: Seq<u8>) -> Seq<u8> {
    Seq::new(s.len(), |i: int| sbox(s[i]))
}

/// InvSubBytes: every byte goes through the inverse S-box.
pub open spec fn inv_sub_bytes_spec(s: Seq<u8>) -> Seq<u8> {
    Seq::new(s.len(), |i: int| inv_sbox(s[i]))
}

/// ShiftRows: row `r` rotates left by `r` positions.
pub open spec fn shift_rows_spec(s: Seq<u8>) -> Seq<u8> {
    Seq::new(16, |i: int| s[i % 4 + 4 * ((i / 4 + i % 4) % 4)])
}

/// InvShiftRows: row `r` rotates right by `r` positions.
pub open spec fn inv_shift_rows_spec(s: Seq<u8>) -> Seq<u8> {
    Seq::new(16, |i: int| s[i % 4 + 4 * ((i / 4 + 4 - i % 4) % 4)])
}

/// Row `row` of the state rotated left by one position.
pub open spec fn rotate_row_left_spec(s: Seq<u8>, row: int) -> Seq<u8> {
    Seq::new(16, |i: int| if i % 4 == row { s[(i + 4) % 16] } else { s[i] })
}

/// Row `row` of the state rotated right by one position.
pub open spec fn rotate_row_right_spec(s: Seq<u8>, row: int) -> Seq<u8> {
    Seq::new(16, |i: int| if i % 4 == row { s[(i + 12) % 16] } else { s[i] })
}

/// Byte `i` of MixColumns: row `i % 4` of the matrix {2, 3, 1, 1} (cyclic)
/// times column `i / 4`.
pub open spec fn mix_byte(s: Seq<u8>, i: int) -> u8 {
    let c = 4 * (i / 4);
    let (a0, a1, a2, a3) = (s[c], s[c + 1], s[c + 2], s[c + 3]);
    if i % 4 == 0 {
        gf_mul(2, a0) ^ gf_mul(3, a1) ^ a2 ^ a3
    } else if i % 4 == 1 {
        a0 ^ gf_mul(2, a1) ^ gf_mul(3, a2) ^ a3
    } else if i % 4 == 2 {
        a0 ^ a1 ^ gf_mul(2, a2) ^ gf_mul(3, a3)
    } else {
        gf_mul(3, a0) ^ a1 ^ a2 ^ gf_mul(2, a3)
    }
}

/// Byte `i` of InvMixColumns: row `i % 4` of the matrix {14, 11, 13, 9}
/// (cyclic) times column `i / 4`.
pub open spec fn inv_mix_byte(s: Seq<u8>, i: int) -> u8 {
    let c = 4 * (i / 4);
    let (a0, a1, a2, a3) = (s[c], s[c + 1], s[c + 2], s[c + 3]);
    if i % 4 == 0 {
        gf_mul(14, a0) ^ gf_mul(11, a1) ^ gf_mul(13, a2) ^ gf_mul(9, a3)
    } else if i % 4 == 1 {
        gf_mul(9, a0) ^ gf_mul(14, a1) ^ gf_mul(11, a2) ^ gf_mul(13, a3)
    } else if i % 4 == 2 {
        gf_mul(13, a0) ^ gf_mul(9, a1) ^ gf_mul(14, a2) ^ gf_mul(11, a3)
    } else {
        gf_mul(11, a0) ^ gf_mul(13, a1) ^ gf_mul(9, a2) ^ gf_mul(14, a3)
    }
}

/// MixColumns over the whole state.
pub open spec fn mix_columns_spec(s: Seq<u8>) -> Seq<u8> {
    Seq::new(16, |i: int| mix_byte(s, i))
}

/// InvMixColumns over the whole state.
pub open spec fn inv_mix_columns_spec(s: Seq<u8>) -> Seq<u8> {
    Seq::new(16, |i: int| inv_mix_byte(s, i))
}

/// XORs `input` into `output`.
pub fn xor_block(input: &Block, output: &mut Block)
    ensures
        final(output)@ == xor_spec(old(output)@, input@),
{
    let mut i: usize = 0;
    while i < 16
        invariant
            i <= 16,
            forall|j: int| 0 <= j < i ==> output@[j] == old(output)@[j] ^ input@[j],
            forall|j: int| i <= j < 16 ==> output@[j] == old(output)@[j],
        decreases 16 - i,
    {
        output[i] = output[i] ^ input[i];
        i += 1;
    }
    assert(output@ =~= xor_spec(old(output)@, input@));
}

/// AddRoundKey: XORs round key `round` of the schedule into the state.
pub fn add_round_key(round_keys: &Vec<u8>, round: usize, state: &mut Block)
    requires
        16 * round + 16 <= round_keys@.len(),
    ensures
        final(state)@ == xor_spec(old(state)@, round_keys@.subrange(16 * round, 16 * round + 16)),
{
    let total = round_keys.len();
    let base = 16 * round;
    let mut i: usize = 0;
    while i < 16
        invariant
            i <= 16,
            base == 16 * round,
            total == round_keys@.len(),
            base + 16 <= total,
            forall|j: int| 0 <= j < i ==> state@[j] == old(state)@[j] ^ round_keys@[base + j],
            forall|j: int| i <= j < 16 ==> state@[j] == old(state)@[j],
        decreases 16 - i,
    {
        state[i] = state[i] ^ round_keys[base + i];
        i += 1;
    }
    assert(state@ =~= xor_spec(old(state)@, round_keys@.subrange(16 * round, 16 * round + 16)));
}

/// SubBytes on the state, in place.
pub fn sub_bytes(state: &mut Block)
    ensures
        final(state)@ == sub_bytes_spec(old(state)@),
{
    let mut i: usize = 0;
    while i < 16
        invariant
            i <= 16,
            forall|j: int| 0 <= j < i ==> state@[j] == sbox(old(state)@[j]),
            forall|j: int| i <= j < 16 ==> state@[j] == old(state)@[j],
        decreases 16 - i,
    {
        state[i] = s_box(state[i]);
        i += 1;
    }
    assert(state@ =~= sub_bytes_spec(old(state)@));
}

/// InvSubBytes on the state, in place.
pub fn inv_sub_bytes(state: &mut Block)
    ensures
        final(state)@ == inv_sub_bytes_spec(old(state)@),
{
    let mut i: usize = 0;
    while i < 16
        invariant
            i <= 16,
            forall|j: int| 0 <= j < i ==> state@[j] == inv_sbox(old(state)@[j]),
            forall|j: int| i <= j < 16 ==> state@[j] == old(state)@[j],
        decreases 16 - i,
    {
        state[i] = inv_s_box(state[i]);
        i += 1;
    }
    assert(state@ =~= inv_sub_bytes_spec(old(state)@));
}

/// Rotates row `row` of the state left by one position.
pub fn rotate_bytes_left(state: &mut Block, row: usize)
    requires
        row < 4,
    ensures
        final(state)@ == rotate_row_left_spec(old(state)@, row as int),
{
    let tmp = state[row];
    state[row] = state[row + 4];
    state[row + 4] = state[row + 8];
    state[row + 8] = state[row + 12];
    state[row + 12] = tmp;
    assert(state@ =~= rotate_row_left_spec(old(state)@, row as int));
}

/// Rotates row `row` of the state right by one position.
pub fn rotate_bytes_right(state: &mut Block, row: usize)
    requires
        row < 4,
    ensures
        final(state)@ == rotate_row_right_spec(old(state)@, row as int),
{
    let tmp = state[row + 12];
    state[row + 12] = state[row + 8];
    state[row + 8] = state[row + 4];
    state[row + 4] = state[row];
    state[row] = tmp;
    assert(state@ =~= rotate_row_right_spec(old(state)@, row as int));
}

/// ShiftRows, as single-position rotations of rows 1, 2 and 3.
pub fn shift_rows(state: &mut Block)
    ensures
        final(state)@ == shift_rows_spec(old(state)@),
{
    rotate_bytes_left(state, 1);
    rotate_bytes_left(state, 2);
    rotate_bytes_left(state, 2);
    rotate_bytes_left(state, 3);
    rotate_bytes_left(state, 3);
    rotate_bytes_left(state, 3);
    assert(state@ =~= shift_rows_spec(old(state)@));
}

/// InvShiftRows, as single-position rotations of rows 1, 2 and 3.
pub fn inv_shift_rows(state: &mut Block)
    ensures
        final(state)@ == inv_shift_rows_spec(old(state)@),
{
    rotate_bytes_right(state, 1);
    rotate_bytes_right(state, 2);
    rotate_bytes_right(state, 2);
    rotate_bytes_right(state, 3);
    rotate_bytes_right(state, 3);
    rotate_bytes_right(state, 3);
    assert(state@ =~= inv_shift_rows_spec(old(state)@));
}

/// MixColumns on the state, in place.
pub fn mix_columns(state: &mut Block)
    ensures
        final(state)@ == mix_columns_spec(old(state)@),
{
    let mut c: usize = 0;
    while c < 16
        invariant
            c <= 16,
            c % 4 == 0,
            forall|j: int| 0 <= j < c ==> state@[j] == mix_byte(old(state)@, j),
            forall|j: int| c <= j < 16 ==> state@[j] == old(state)@[j],
        decreases 16 - c,
    {
        let (s0, s1, s2, s3) = (state[c], state[c + 1], state[c + 2], state[c + 3]);
        state[c] = gmul(2, s0) ^ gmul(3, s1) ^ s2 ^ s3;
        state[c + 1] = s0 ^ gmul(2, s1) ^ gmul(3, s2) ^ s3;
        state[c + 2] = s0 ^ s1 ^ gmul(2, s2) ^ gmul(3, s3);
        state[c + 3] = gmul(3, s0) ^ s1 ^ s2 ^ gmul(2, s3);
        c += 4;
    }
    assert(state@ =~= mix_columns_spec(old(state)@));
}

/// InvMixColumns on the state, in place.
pub fn inv_mix_columns(state: &mut Block)
    ensures
        final(state)@ == inv_mix_columns_spec(old(state)@),
{
    let mut c: usize = 0;
    while c < 16
        invariant
            c <= 16,
            c % 4 == 0,
            forall|j: int| 0 <= j < c ==> state@[j] == inv_mix_byte(old(state)@, j),
            forall|j: int| c <= j < 16 ==> state@[j] == old(state)@[j],
        decreases 16 - c,
    {
        let (s0, s1, s2, s3) = (state[c], state[c + 1], state[c + 2], state[c + 3]);
        state[c] = gmul(0x0e, s0) ^ gmul(0x0b, s1) ^ gmul(0x0d, s2) ^ gmul(0x09, s3);
        state[c + 1] = gmul(0x09, s0) ^ gmul(0x0e, s1) ^ gmul(0x0b, s2) ^ gmul(0x0d, s3);
        state[c + 2] = gmul(0x0d, s0) ^ gmul(0x09, s1) ^ gmul(0x0e, s2) ^ gmul(0x0b, s3);
        state[c + 3] = gmul(0x0b, s0) ^ gmul(0x0d, s1) ^ gmul(0x09, s2) ^ gmul(0x0e, s3);
        c += 4;
    }
    assert(state@ =~= inv_mix_columns_spec(old(state)@));
}

/// Multiplication by 9 in GF(2^8), written with `xtime`.
spec fn mul9(x: u8) -> u8 {
    xtime(xtime(xtime(x))) ^ x
}

/// Multiplication by 11 in GF(2^8), written with `xtime`.
spec fn mul11(x: u8) -> u8 {
    xtime(xtime(xtime(x))) ^ xtime(x) ^ x
}

/// Multiplication by 13 in GF(2^8), written with `xtime`.
spec fn mul13(x: u8) -> u8 {
    xtime(xtime(xtime(x))) ^ xtime(xtime(x)) ^ x
}

/// Multiplication by 14 in GF(2^8), written with `xtime`.
spec fn mul14(x: u8) -> u8 {
    xtime(xtime(xtime(x))) ^ xtime(xtime(x)) ^ xtime(x)
}

/// InvMixColumns after MixColumns on one column, in closed form.
proof fn lemma_column_inverse_closed(a0: u8, a1: u8, a2: u8, a3: u8)
    by (bit_vector)
    ensures
        ({
            let y0 = xtime(a0) ^ (xtime(a1) ^ a1) ^ a2 ^ a3;
            let y1 = a0 ^ xtime(a1) ^ (xtime(a2) ^ a2) ^ a3;
            let y2 = a0 ^ a1 ^ xtime(a2) ^ (xtime(a3) ^ a3);
            let y3 = (xtime(a0) ^ a0) ^ a1 ^ a2 ^ xtime(a3);
            &&& mul14(y0) ^ mul11(y1) ^ mul13(y2) ^ mul9(y3) == a0
            &&& mul9(y0) ^ mul14(y1) ^ mul11(y2) ^ mul13(y3) == a1
            &&& mul13(y0) ^ mul9(y1) ^ mul14(y2) ^ mul11(y3) == a2
            &&& mul11(y0) ^ mul13(y1) ^ mul9(y2) ^ mul14(y3) == a3
        }),
{
}

/// InvMixColumns undoes MixColumns on any 16-byte state.
pub proof fn lemma_mix_columns_inverse(s: Seq<u8>)
    requires
        s.len() == 16,
    ensures
        inv_mix_columns_spec(mix_columns_spec(s)) == s,
{
    let m = mix_columns_spec(s);
    assert forall|i: int| 0 <= i < 16 implies #[trigger] inv_mix_columns_spec(m)[i] == s[i] by {
        let c = 4 * (i / 4);
        let (a0, a1, a2, a3) = (s[c], s[c + 1], s[c + 2], s[c + 3]);
        assert(m[c] == mix_byte(s, c) && m[c + 1] == mix_byte(s, c + 1));
        assert(m[c + 2] == mix_byte(s, c + 2) && m[c + 3] == mix_byte(s, c + 3));
        lemma_gf_mul_constants(a0);
        lemma_gf_mul_constants(a1);
        lemma_gf_mul_constants(a2);
        lemma_gf_mul_constants(a3);
        lemma_gf_mul_constants(m[c]);
        lemma_gf_mul_constants(m[c + 1]);
        lemma_gf_mul_constants(m[c + 2]);
        lemma_gf_mul_constants(m[c + 3]);
        lemma_column_inverse_closed(a0, a1, a2, a3);
    }
    assert(inv_mix_columns_spec(m) =~= s);
}

/// MixColumns after InvMixColumns on one column, in closed form.
proof fn lemma_column_forward_closed(a0: u8, a1: u8, a2: u8, a3: u8)
    by (bit_vector)
    ensures
        ({
            let y0 = mul14(a0) ^ mul11(a1) ^ mul13(a2) ^ mul9(a3);
            let y1 = mul9(a0) ^ mul14(a1) ^ mul11(a2) ^ mul13(a3);
            let y2 = mul13(a0) ^ mul9(a1) ^ mul14(a2) ^ mul11(a3);
            let y3 = mul11(a0) ^ mul13(a1) ^ mul9(a2) ^ mul14(a3);
            &&& xtime(y0) ^ (xtime(y1) ^ y1) ^ y2 ^ y3 == a0
            &&& y0 ^ xtime(y1) ^ (xtime(y2) ^ y2) ^ y3 == a1
            &&& y0 ^ y1 ^ xtime(y2) ^ (xtime(y3) ^ y3) == a2
            &&& (xtime(y0) ^ y0) ^ y1 ^ y2 ^ xtime(y3) == a3
        }),
{
}

/// MixColumns undoes InvMixColumns on any 16-byte state.
pub proof fn lemma_inv_mix_columns_inverse(s: Seq<u8>)
    requires
        s.len() == 16,
    ensures
        mix_columns_spec(inv_mix_columns_spec(s)) == s,
{
    let m = inv_mix_columns_spec(s);
    assert forall|i: int| 0 <= i < 16 implies #[trigger] mix_columns_spec(m)[i] == s[i] by {
        let c = 4 * (i / 4);
        let (a0, a1, a2, a3) = (s[c], s[c + 1], s[c + 2], s[c + 3]);
        assert(m[c] == inv_mix_byte(s, c) && m[c + 1] == inv_mix_byte(s, c + 1));
        assert(m[c + 2] == inv_mix_byte(s, c + 2) && m[c + 3] == inv_mix_byte(s, c + 3));
        lemma_gf_mul_constants(a0);
        lemma_gf_mul_constants(a1);
        lemma_gf_mul_constants(a2);
        lemma_gf_mul_constants(a3);
        lemma_gf_mul_constants(m[c]);
        lemma_gf_mul_constants(m[c + 1]);
        lemma_gf_mul_constants(m[c + 2]);
        lemma_gf_mul_constants(m[c + 3]);
        lemma_column_forward_closed(a0, a1, a2, a3);
    }
    assert(mix_columns_spec(m) =~= s);
}

/// ShiftRows undoes InvShiftRows on any 16-byte state.
pub proof fn lemma_inv_shift_rows_inverse(s: Seq<u8>)
    requires
        s.len() == 16,
    ensures
        shift_rows_spec(inv_shift_rows_spec(s)) == s,
{
    assert(shift_rows_spec(inv_shift_rows_spec(s)) =~= s);
}

/// SubBytes undoes InvSubBytes on any state.
pub proof fn lemma_inv_sub_bytes_inverse(s: Seq<u8>)
    ensures
        sub_bytes_spec(inv_sub_bytes_spec(s)) == s,
{
    assert forall|i: int| 0 <= i < s.len() implies #[trigger] sub_bytes_spec(inv_sub_bytes_spec(s))[i]
        == s[i] by {
        lemma_inv_sbox_inverse(s[i]);
    }
    assert(sub_bytes_spec(inv_sub_bytes_spec(s)) =~= s);
}

/// InvShiftRows undoes ShiftRows on any 16-byte state.
pub proof fn lemma_shift_rows_inverse(s: Seq<u8>)
    requires
        s.len() == 16,
    ensures
        inv_shift_rows_spec(shift_rows_spec(s)) == s,
{
    assert(inv_shift_rows_spec(shift_rows_spec(s)) =~= s);
}

/// InvSubBytes undoes SubBytes on any state.
pub proof fn lemma_sub_bytes_inverse(s: Seq<u8>)
    ensures
        inv_sub_bytes_spec(sub_bytes_spec(s)) == s,
{
    assert forall|i: int| 0 <= i < s.len() implies #[trigger] inv_sub_bytes_spec(sub_bytes_spec(s))[i]
        == s[i] by {
        lemma_sbox_inverse(s[i]);
    }
    assert(inv_sub_bytes_spec(sub_bytes_spec(s)) =~= s);
}

/// Round key `r` of a flat key schedule.
pub open spec fn round_key(w: Seq<u8>, r: int) -> Seq<u8> {
    w.subrange(16 * r, 16 * r + 16)
}

/// The state after the full rounds `1..=r` applied to `t`.
pub open spec fn fwd_rounds(t: Seq<u8>, w: Seq<u8>, r: nat) -> Seq<u8>
    decreases r,
{
    if r == 0 {
        t
    } else {
        xor_spec(
            mix_columns_spec(shift_rows_spec(sub_bytes_spec(fwd_rounds(t, w, (r - 1) as nat)))),
            round_key(w, r as int),
        )
    }
}

/// The state after undoing the full rounds `r` down to `1`, starting from `t`.
pub open spec fn inv_rounds(t: Seq<u8>, w: Seq<u8>, r: nat) -> Seq<u8>
    decreases r,
{
    if r == 0 {
        t
    } else {
        inv_rounds(
            inv_sub_bytes_spec(inv_shift_rows_spec(inv_mix_columns_spec(xor_spec(t, round_key(w, r as int))))),
            w,
            (r - 1) as nat,
        )
    }
}

/// The forward cipher with `nr` rounds on block `s` under schedule `w`.
pub open spec fn cipher(s: Seq<u8>, w: Seq<u8>, nr: nat) -> Seq<u8> {
    let t = fwd_rounds(xor_spec(s, round_key(w, 0)), w, (nr - 1) as nat);
    xor_spec(shift_rows_spec(sub_bytes_spec(t)), round_key(w, nr as int))
}

/// The inverse cipher with `nr` rounds on block `s` under schedule `w`.
pub open spec fn inv_cipher(s: Seq<u8>, w: Seq<u8>, nr: nat) -> Seq<u8> {
    let t = inv_sub_bytes_spec(inv_shift_rows_spec(xor_spec(s, round_key(w, nr as int))));
    xor_spec(inv_rounds(t, w, (nr - 1) as nat), round_key(w, 0))
}

/// A well-formed schedule for `nr` rounds holds `nr + 1` round keys.
pub open spec fn schedule_fits(w: Seq<u8>, nr: nat) -> bool {
    1 <= nr && w.len() == 16 * (nr + 1)
}

/// XOR with the same key twice is the identity.
pub proof fn lemma_xor_twice(a: Seq<u8>, k: Seq<u8>)
    requires
        a.len() <= k.len(),
    ensures
        xor_spec(xor_spec(a, k), k) == a,
{
    assert forall|i: int| 0 <= i < a.len() implies #[trigger] xor_spec(xor_spec(a, k), k)[i] == a[i] by {
        let (x, y) = (a[i], k[i]);
        assert((x ^ y) ^ y == x) by (bit_vector);
    }
    assert(xor_spec(xor_spec(a, k), k) =~= a);
}

proof fn lemma_fwd_rounds_len(t: Seq<u8>, w: Seq<u8>, r: nat)
    requires
        t.len() == 16,
    ensures
        fwd_rounds(t, w, r).len() == 16,
    decreases r,
{
    if r > 0 {
        lemma_fwd_rounds_len(t, w, (r - 1) as nat);
    }
}

proof fn lemma_inv_fwd_rounds(t: Seq<u8>, w: Seq<u8>, r: nat)
    requires
        t.len() == 16,
        w.len() >= 16 * (r + 1),
    ensures
        inv_rounds(fwd_rounds(t, w, r), w, r) == t,
    decreases r,
{
    if r > 0 {
        let prev = fwd_rounds(t, w, (r - 1) as nat);
        lemma_fwd_rounds_len(t, w, (r - 1) as nat);
        let a = sub_bytes_spec(prev);
        let b = shift_rows_spec(a);
        let c = mix_columns_spec(b);
        lemma_xor_twice(c, round_key(w, r as int));
        lemma_mix_columns_inverse(b);
        lemma_shift_rows_inverse(a);
        lemma_sub_bytes_inverse(prev);
        lemma_inv_fwd_rounds(t, w, (r - 1) as nat);
    }
}

/// Decrypting a block that was encrypted under the same schedule gives it back.
pub proof fn lemma_cipher_inverse(s: Seq<u8>, w: Seq<u8>, nr: nat)
    requires
        s.len() == 16,
        schedule_fits(w, nr),
    ensures
        cipher(s, w, nr).len() == 16,
        inv_cipher(cipher(s, w, nr), w, nr) == s,
{
    let t0 = xor_spec(s, round_key(w, 0));
    let t = fwd_rounds(t0, w, (nr - 1) as nat);
    lemma_fwd_rounds_len(t0, w, (nr - 1) as nat);
    let a = sub_bytes_spec(t);
    let b = shift_rows_spec(a);
    lemma_xor_twice(b, round_key(w, nr as int));
    lemma_shift_rows_inverse(a);
    lemma_sub_bytes_inverse(t);
    lemma_inv_fwd_rounds(t0, w, (nr - 1) as nat);
    lemma_xor_twice(s, round_key(w, 0));
}

/// Encrypts one block in place with the `nr`-round schedule `round_keys`.
pub fn encrypt_block(round_keys: &Vec<u8>, nr: usize, state: &mut Block)
    requires
        schedule_fits(round_keys@, nr as nat),
    ensures
        final(state)@ == cipher(old(state)@, round_keys@, nr as nat),
{
    add_round_key(round_keys, 0, state);
    let ghost t0 = state@;
    let mut r: usize = 1;
    while r < nr
        invariant
            1 <= r <= nr,
            schedule_fits(round_keys@, nr as nat),
            t0 == xor_spec(old(state)@, round_key(round_keys@, 0)),
            state@ == fwd_rounds(t0, round_keys@, (r - 1) as nat),
        decreases nr - r,
    {
        sub_bytes(state);
        shift_rows(state);
        mix_columns(state);
        add_round_key(round_keys, r, state);
        r += 1;
    }
    sub_bytes(state);
    shift_rows(state);
    add_round_key(round_keys, nr, state);
}

/// Decrypts one block in place with the `nr`-round schedule `round_keys`.
pub fn decrypt_block(round_keys: &Vec<u8>, nr: usize, state: &mut Block)
    requires
        schedule_fits(round_keys@, nr as nat),
    ensures
        final(state)@ == inv_cipher(old(state)@, round_keys@, nr as nat),
{
    add_round_key(round_keys, nr, state);
    inv_shift_rows(state);
    inv_sub_bytes(state);
    let ghost t = state@;
    let mut r: usize = nr - 1;
    while r > 0
        invariant
            r < nr,
            schedule_fits(round_keys@, nr as nat),
            inv_rounds(t, round_keys@, (nr - 1) as nat) == inv_rounds(state@, round_keys@, r as nat),
        decreases r,
    {
        add_round_key(round_keys, r, state);
        inv_mix_columns(state);
        inv_shift_rows(state);
        inv_sub_bytes(state);
        r -= 1;
    }
    add_round_key(round_keys, 0, state);
}

/// Block `i` (16 bytes) of a buffer.
pub open spec fn block_at(s: Seq<u8>, i: int) -> Seq<u8> {
    s.subrange(16 * i, 16 * i + 16)
}

/// How many padding bytes a buffer of `n` bytes receives: 1 to 16.
pub open spec fn pad_len(n: nat) -> nat {
    (16 - n % 16) as nat
}

/// PKCS-style padding: `k` bytes of value `k` fill the last block, and a
/// whole block of 16s follows a block-aligned input.
pub open spec fn pad_spec(p: Seq<u8>) -> Seq<u8> {
    p + Seq::new(pad_len(p.len()), |i: int| pad_len(p.len()) as u8)
}

/// Removal of the padding: the last byte says how many bytes to drop; it must
/// be between 1 and the length of the buffer.
pub open spec fn unpad_spec(p: Seq<u8>) -> Option<Seq<u8>> {
    if p.len() == 0 {
        None
    } else {
        let k = p.last();
        if k == 0 || k > p.len() {
            None
        } else {
            Some(p.subrange(0, p.len() - k))
        }
    }
}

/// Padding adds 1 to 16 bytes, keeps the data in front, makes the length a
/// multiple of the block size, and is removed exactly.
pub proof fn lemma_padding(p: Seq<u8>)
    ensures
        1 <= pad_spec(p).len() - p.len() <= 16,
        pad_spec(p).len() % 16 == 0,
        pad_spec(p).subrange(0, p.len() as int) == p,
        unpad_spec(pad_spec(p)) == Some(p),
{
    let q = pad_spec(p);
    assert(q.last() == pad_len(p.len()) as u8);
    assert(q.subrange(0, p.len() as int) =~= p);
}

/// Appends `k` bytes of value `k` so that the length becomes a multiple of 16.
pub fn add_padding(data: &Vec<u8>) -> (r: Vec<u8>)
    requires
        data@.len() + 16 <= usize::MAX,
    ensures
        r@ == pad_spec(data@),
{
    let len = data.len();
    let byte: u8 = (16 - len % 16) as u8;
    let mut out: Vec<u8> = Vec::with_capacity(len + 16);
    let mut i: usize = 0;
    while i < len
        invariant
            i <= len,
            len == data@.len(),
            out@ == data@.subrange(0, i as int),
        decreases len - i,
    {
        out.push(data[i]);
        i += 1;
    }
    let mut k: usize = 0;
    while k < byte as usize
        invariant
            k <= byte,
            len == data@.len(),
            byte as nat == pad_len(len as nat),
            out@ == data@ + Seq::new(k as nat, |j: int| byte),
        decreases byte - k,
    {
        out.push(byte);
        k += 1;
        assert(out@ =~= data@ + Seq::new(k as nat, |j: int| byte));
    }
    out
}

/// Drops the padding that the last byte announces.
pub fn remove_padding(state: &mut Vec<u8>) -> (r: Result<(), AesError>)
    ensures
        r is Ok <==> unpad_spec(old(state)@) is Some,
        r is Ok ==> final(state)@ == unpad_spec(old(state)@)->Some_0,
        r is Err ==> r->Err_0 == AesError::BadPadding && final(state)@ == old(state)@,
{
    let len = state.len();
    if len == 0 {
        return Err(AesError::BadPadding);
    }
    let padding_len = state[len - 1] as usize;
    if padding_len == 0 || padding_len > len {
        return Err(AesError::BadPadding);
    }
    state.truncate(len - padding_len);
    assert(state@ =~= old(state)@.subrange(0, len - padding_len));
    Ok(())
}

/// Cuts a buffer into its 16-byte blocks. Only for block-aligned buffers:
/// callers pad first (CBC encryption) or reject unaligned input (CBC
/// decryption), so no short last block ever arises.
pub fn split_blocks(bytes: &Vec<u8>) -> (r: Vec<Block>)
    requires
        bytes@.len() % 16 == 0,
    ensures
        r@.len() == bytes@.len() / 16,
        forall|i: int| 0 <= i < r@.len() ==> #[trigger] r@[i]@ == block_at(bytes@, i),
{
    let n = bytes.len() / 16;
    assert(16 * n == bytes@.len());
    let mut blocks: Vec<Block> = Vec::with_capacity(n);
    let mut i: usize = 0;
    while i < n
        invariant
            i <= n,
            16 * n == bytes@.len(),
            bytes@.len() <= usize::MAX,
            blocks@.len() == i,
            forall|m: int| 0 <= m < i ==> #[trigger] blocks@[m]@ == block_at(bytes@, m),
        decreases n - i,
    {
        let base = 16 * i;
        let mut block: Block = [0u8; 16];
        let mut k: usize = 0;
        while k < 16
            invariant
                k <= 16,
                i < n,
                16 * n == bytes@.len(),
                base == 16 * i,
                forall|m: int| 0 <= m < k ==> block@[m] == bytes@[base + m],
            decreases 16 - k,
        {
            block[k] = bytes[base + k];
            k += 1;
        }
        assert(block@ =~= block_at(bytes@, i as int));
        blocks.push(block);
        i += 1;
    }
    blocks
}

/// Appends the 16 bytes of `block` to `out`.
pub fn push_block(out: &mut Vec<u8>, block: &Block)
    ensures
        final(out)@ == old(out)@ + block@,
{
    let mut k: usize = 0;
    while k < 16
        invariant
            k <= 16,
            out@ == old(out)@ + block@.subrange(0, k as int),
        decreases 16 - k,
    {
        out.push(block[k]);
        k += 1;
        assert(out@ =~= old(out)@ + block@.subrange(0, k as int));
    }
    assert(block@.subrange(0, 16) =~= block@);
}

/// Copies the bytes `start..end` of `data` into a new vector.
pub fn copy_range(data: &Vec<u8>, start: usize, end: usize) -> (r: Vec<u8>)
    requires
        start <= end <= data@.len(),
    ensures
        r@ == data@.subrange(start as int, end as int),
{
    let mut out: Vec<u8> = Vec::with_capacity(end - start);
    let mut i: usize = start;
    while i < end
        invariant
            start <= i <= end,
            end <= data@.len(),
            out@ == data@.subrange(start as int, i as int),
        decreases end - i,
    {
        out.push(data[i]);
        i += 1;
        assert(out@ =~= data@.subrange(start as int, i as int));
    }
    out
}

} // verus!
