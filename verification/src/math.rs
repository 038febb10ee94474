use vstd::prelude::*;

verus! {

/// Integer division rounding toward zero, as Rust's `/` does on signed integers.
pub open spec fn trunc_div(a: int, b: int) -> int {
    if a >= 0 && b > 0 {
        a / b
    } else if a >= 0 && b < 0 {
        -(a / (-b))
    } else if a < 0 && b > 0 {
        -((-a) / b)
    } else {
        (-a) / (-b)
    }
}

/// Whether `x` fits in an `i128`.
pub open spec fn fits_i128(x: int) -> bool {
    i128::MIN <= x <= i128::MAX
}

/// Whether `a / b` on `i128` is defined (no division by zero, no `MIN / -1`).
pub open spec fn div_defined(a: int, b: int) -> bool {
    b != 0 && !(a == i128::MIN && b == -1)
}

/// `a / b` on `i128`, rounding toward zero.
pub fn div_i128(a: i128, b: i128) -> (r: i128)
    requires
        div_defined(a as int, b as int),
    ensures
        r == trunc_div(a as int, b as int),
{
    if b > 0 {
        a / b
    } else if b == i128::MIN {
        if a == i128::MIN {
            1
        } else {
            assert(trunc_div(a as int, b as int) == 0) by (nonlinear_arith)
                requires
                    b == i128::MIN,
                    a != i128::MIN,
                    i128::MIN <= a <= i128::MAX,
            ;
            0
        }
    } else {
        let nb: i128 = -b;
        let q = a / nb;
        assert(q != i128::MIN) by (nonlinear_arith)
            requires
                nb > 0,
                nb == -b,
                !(a == i128::MIN && b == -1),
                i128::MIN <= a <= i128::MAX,
                a >= 0 ==> q == (a as int) / (nb as int),
                a < 0 ==> q == -((-(a as int)) / (nb as int)),
        ;
        -q
    }
}

/// Little-endian value of a byte sequence.
pub open spec fn le_value(s: Seq<u8>) -> nat
    decreases s.len(),
{
    if s.len() == 0 {
        0
    } else {
        s[0] as nat + 256 * le_value(s.drop_first())
    }
}

/// `256` to the power `n`.
pub open spec fn pow256(n: nat) -> nat
    decreases n,
{
    if n == 0 {
        1
    } else {
        256 * pow256((n - 1) as nat)
    }
}

/// A little-endian value of `n` bytes is below `256^n`.
pub proof fn lemma_le_value_bound(s: Seq<u8>)
    ensures
        le_value(s) < pow256(s.len()),
    decreases s.len(),
{
    if s.len() > 0 {
        lemma_le_value_bound(s.drop_first());
    }
}

/// Powers of 256 grow with the exponent.
pub proof fn lemma_pow256_monotone(n: nat, m: nat)
    requires
        n <= m,
    ensures
        pow256(n) <= pow256(m),
    decreases m - n,
{
    if n < m {
        lemma_pow256_monotone(n, (m - 1) as nat);
    }
}

/// Splitting off the first byte of a subrange.
pub proof fn lemma_le_value_step(s: Seq<u8>, i: int, j: int)
    requires
        0 <= i < j <= s.len(),
    ensures
        le_value(s.subrange(i, j)) == s[i] as nat + 256 * le_value(s.subrange(i + 1, j)),
{
    assert(s.subrange(i, j).drop_first() =~= s.subrange(i + 1, j));
}

/// The `n` little-endian bytes of `v` (higher bytes dropped).
pub open spec fn le_bytes(v: nat, n: nat) -> Seq<u8>
    decreases n,
{
    if n == 0 {
        Seq::empty()
    } else {
        seq![(v % 256) as u8].add(le_bytes(v / 256, (n - 1) as nat))
    }
}

/// `le_bytes(v, n)` has `n` bytes.
pub proof fn lemma_le_bytes_len(v: nat, n: nat)
    ensures
        le_bytes(v, n).len() == n,
    decreases n,
{
    if n > 0 {
        lemma_le_bytes_len(v / 256, (n - 1) as nat);
    }
}

/// The first `m` of the `n` little-endian bytes of `v` are its `m` little-endian bytes.
pub proof fn lemma_le_bytes_prefix(v: nat, n: nat, m: nat)
    requires
        m <= n,
    ensures
        le_bytes(v, n).subrange(0, m as int) == le_bytes(v, m),
    decreases m,
{
    lemma_le_bytes_len(v, n);
    lemma_le_bytes_len(v, m);
    if m == 0 {
        assert(le_bytes(v, n).subrange(0, 0) =~= le_bytes(v, 0));
    } else {
        lemma_le_bytes_len(v / 256, (n - 1) as nat);
        lemma_le_bytes_prefix(v / 256, (n - 1) as nat, (m - 1) as nat);
        assert(le_bytes(v, n).subrange(0, m as int) =~= le_bytes(v, m));
    }
}

/// Reading back `n` little-endian bytes gives `v` when `v < 256^n`.
pub proof fn lemma_le_bytes_roundtrip(v: nat, n: nat)
    requires
        v < pow256(n),
    ensures
        le_value(le_bytes(v, n)) == v,
    decreases n,
{
    if n > 0 {
        let s = le_bytes(v, n);
        lemma_le_bytes_len(v / 256, (n - 1) as nat);
        assert(s.drop_first() =~= le_bytes(v / 256, (n - 1) as nat));
        let p = pow256((n - 1) as nat);
        assert(v / 256 < p) by (nonlinear_arith)
            requires
                v < 256 * p,
        ;
        lemma_le_bytes_roundtrip(v / 256, (n - 1) as nat);
    }
}

} // verus!

