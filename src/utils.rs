//! Small helpers: the random byte source and buffer utilities.
use rand::RngCore;
use vstd::prelude::*;

verus! {

/// Relies on rand's `OsRng` and `RngCore::try_fill_bytes`: `size` bytes from
/// the operating system's random source, or `None` when that source reports
/// an error.
#[verifier::external_body]
pub fn rand_bytes(size: usize) -> (r: Option<Vec<u8>>)
    ensures
        r is Some ==> r->Some_0@.len() == size,
{
    let mut bytes = vec![0u8; size];
    match rand::rngs::OsRng.try_fill_bytes(&mut bytes) {
        Ok(()) => Some(bytes),
        Err(_) => None,
    }
}

/// Puts `prefix` in front of `vec`.
pub fn prepend_vec<T>(vec: &mut Vec<T>, prefix: Vec<T>)
    ensures
        final(vec)@ == prefix@ + old(vec)@,
{
    let mut prefix = prefix;
    prefix.append(vec);
    *vec = prefix;
}

/// Position of row `r`, column `c` in a matrix of `n` columns stored row after row.
pub open spec fn cell(n: int, r: int, c: int) -> int {
    r * n + c
}

proof fn lemma_cell_bounds(n: int, r: int, c: int)
    requires
        0 <= r < n,
        0 <= c < n,
    ensures
        0 <= cell(n, r, c) < n * n,
{
    assert(0 <= r * n + c < n * n) by (nonlinear_arith)
        requires
            0 <= r < n,
            0 <= c < n,
    ;
}

proof fn lemma_cell_injective(n: int, r: int, c: int, r2: int, c2: int)
    requires
        0 <= r < n,
        0 <= c < n,
        0 <= r2 < n,
        0 <= c2 < n,
        cell(n, r, c) == cell(n, r2, c2),
    ensures
        r == r2 && c == c2,
{
    assert(r == r2) by (nonlinear_arith)
        requires
            0 <= r < n,
            0 <= c < n,
            0 <= r2 < n,
            0 <= c2 < n,
            r * n + c == r2 * n + c2,
    ;
}

/// Transposes, in place, a square matrix of `lines` rows and `cols` columns
/// stored row after row at the front of `vec`; elements after it stay.
pub fn transpose_matrix<T: Copy>(vec: &mut Vec<T>, lines: usize, cols: usize)
    requires
        lines == cols,
        old(vec)@.len() >= lines * cols,
    ensures
        final(vec)@.len() == old(vec)@.len(),
        forall|i: int| lines * cols <= i < old(vec)@.len() ==> #[trigger] final(vec)@[i] == old(vec)@[i],
        forall|r: int, c: int|
            0 <= r < lines && 0 <= c < cols ==> #[trigger] final(vec)@[cell(cols as int, r, c)] == old(vec)@[cell(
                cols as int,
                c,
                r,
            )],
{
    let n = cols;
    let ghost m = n as int;
    let ghost orig = vec@;
    let total = vec.len();
    let mut l: usize = 0;
    while l < n
        invariant
            l <= n,
            n == cols,
            m == n,
            vec@.len() == orig.len(),
            orig.len() >= m * m,
            orig.len() == total,
            forall|i: int| m * m <= i < orig.len() ==> #[trigger] vec@[i] == orig[i],
            forall|r: int, c: int|
                0 <= r < m && 0 <= c < m ==> #[trigger] vec@[cell(m, r, c)] == if r < l || c < l {
                    orig[cell(m, c, r)]
                } else {
                    orig[cell(m, r, c)]
                },
        decreases n - l,
    {
        let mut c2: usize = l + 1;
        while c2 < n
            invariant
                l < n,
                l + 1 <= c2 <= n,
                n == cols,
                m == n,
                vec@.len() == orig.len(),
                orig.len() >= m * m,
                orig.len() == total,
                forall|i: int| m * m <= i < orig.len() ==> #[trigger] vec@[i] == orig[i],
            orig.len() <= usize::MAX,
                forall|r: int, c: int|
                    0 <= r < m && 0 <= c < m ==> #[trigger] vec@[cell(m, r, c)] == if r < l || c < l || (r == l
                        && l < c < c2) || (c == l && l < r < c2) {
                        orig[cell(m, c, r)]
                    } else {
                        orig[cell(m, r, c)]
                    },
            decreases n - c2,
        {
            proof {
                lemma_cell_bounds(m, l as int, c2 as int);
                lemma_cell_bounds(m, c2 as int, l as int);
            }
            let i = l * n + c2;
            let j = c2 * n + l;
            let a = vec[i];
            let b = vec[j];
            let ghost before = vec@;
            vec.set(i, b);
            vec.set(j, a);
            proof {
                assert forall|k: int| m * m <= k < orig.len() implies #[trigger] vec@[k] == orig[k] by {
                    assert(k != i as int && k != j as int);
                }
                assert forall|r: int, c: int| 0 <= r < m && 0 <= c < m implies #[trigger] vec@[cell(m, r, c)]
                    == if r < l || c < l || (r == l && l < c < c2 + 1) || (c == l && l < r < c2 + 1) {
                    orig[cell(m, c, r)]
                } else {
                    orig[cell(m, r, c)]
                } by {
                    lemma_cell_bounds(m, r, c);
                    if cell(m, r, c) == i as int {
                        lemma_cell_injective(m, r, c, l as int, c2 as int);
                        assert(before[cell(m, c2 as int, l as int)] == orig[cell(m, c2 as int, l as int)]);
                    } else if cell(m, r, c) == j as int {
                        lemma_cell_injective(m, r, c, c2 as int, l as int);
                        assert(before[cell(m, l as int, c2 as int)] == orig[cell(m, l as int, c2 as int)]);
                    } else {
                        assert(vec@[cell(m, r, c)] == before[cell(m, r, c)]);
                        if r == l && c == c2 {
                            assert(false);
                        }
                        if c == l && r == c2 {
                            assert(false);
                        }
                    }
                }
            }
            c2 += 1;
        }
        proof {
            assert forall|r: int, c: int| 0 <= r < m && 0 <= c < m implies #[trigger] vec@[cell(m, r, c)]
                == if r < l + 1 || c < l + 1 {
                orig[cell(m, c, r)]
            } else {
                orig[cell(m, r, c)]
            } by {
                if r == l && c == l {
                    assert(vec@[cell(m, r, c)] == orig[cell(m, r, c)]);
                }
            }
        }
        l += 1;
    }
}

} // verus!
