use vstd::prelude::*;

verus! {

/// Whether two byte strings are equal.
pub fn bytes_eq(a: &[u8], b: &[u8]) -> (r: bool)
    ensures
        r == (a@ == b@),
{
    if a.len() != b.len() {
        return false;
    }
    let mut i: usize = 0;
    while i < a.len()
        invariant
            a@.len() == b@.len(),
            0 <= i <= a@.len(),
            forall|j: int| 0 <= j < i ==> a@[j] == b@[j],
        decreases a@.len() - i,
    {
        if a[i] != b[i] {
            return false;
        }
        i += 1;
    }
    assert(a@ =~= b@);
    true
}

/// Little-endian bytes of the lowest `n` bytes of `x`.
pub open spec fn le_bytes_n(x: nat, n: nat) -> Seq<u8>
    decreases n,
{
    if n == 0 {
        Seq::empty()
    } else {
        seq![(x % 256) as u8] + le_bytes_n((x / 256) as nat, (n - 1) as nat)
    }
}

/// `256` to the power `n`.
pub open spec fn pow256(n: nat) -> nat
    decreases n,
{
    if n == 0 {
        1
    } else {
        256 * pow256((n - 1) as nat)
    }
}

/// Numbers below `256^n` have distinct `n`-byte little-endian forms.
pub proof fn lemma_le_bytes_n_injective(x: nat, y: nat, n: nat)
    requires
        x < pow256(n),
        y < pow256(n),
        le_bytes_n(x, n) == le_bytes_n(y, n),
    ensures
        x == y,
    decreases n,
{
    if n > 0 {
        let p = pow256((n - 1) as nat);
        let a = le_bytes_n(x, n);
        let b = le_bytes_n(y, n);
        assert(a[0] == b[0]);
        assert(x % 256 == y % 256);
        assert(a.drop_first() =~= le_bytes_n((x / 256) as nat, (n - 1) as nat));
        assert(b.drop_first() =~= le_bytes_n((y / 256) as nat, (n - 1) as nat));
        assert(x / 256 < p) by (nonlinear_arith)
            requires
                x < 256 * p,
        ;
        assert(y / 256 < p) by (nonlinear_arith)
            requires
                y < 256 * p,
        ;
        lemma_le_bytes_n_injective((x / 256) as nat, (y / 256) as nat, (n - 1) as nat);
        assert(x == 256 * (x / 256) + x % 256) by (nonlinear_arith);
        assert(y == 256 * (y / 256) + y % 256) by (nonlinear_arith);
    }
}

/// Distinct `u64` values have distinct little-endian forms.
pub proof fn lemma_le_bytes_injective(x: u64, y: u64)
    ensures
        le_bytes(x) == le_bytes(y) ==> x == y,
{
    assert(pow256(0) == 1);
    assert(pow256(1) == 256);
    assert(pow256(2) == 65536);
    assert(pow256(3) == 16777216);
    assert(pow256(4) == 4294967296);
    assert(pow256(5) == 1099511627776);
    assert(pow256(6) == 281474976710656);
    assert(pow256(7) == 72057594037927936);
    assert(pow256(8) == 18446744073709551616);
    if le_bytes(x) == le_bytes(y) {
        lemma_le_bytes_n_injective(x as nat, y as nat, 8);
    }
}

/// The eight little-endian bytes of a `u64`.
pub open spec fn le_bytes(x: u64) -> Seq<u8> {
    le_bytes_n(x as nat, 8)
}

/// The eight little-endian bytes of `x`.
pub fn u64_to_le_bytes(x: u64) -> (r: Vec<u8>)
    ensures
        r@ == le_bytes(x),
        r@.len() == 8,
{
    let mut out: Vec<u8> = Vec::new();
    let mut v: u64 = x;
    let mut i: usize = 0;
    while i < 8
        invariant
            0 <= i <= 8,
            out@.len() == i,
            out@ + le_bytes_n(v as nat, (8 - i) as nat) == le_bytes(x),
        decreases 8 - i,
    {
        proof {
            let rest = le_bytes_n((v / 256) as nat, (8 - i - 1) as nat);
            assert(le_bytes_n(v as nat, (8 - i) as nat) == seq![(v % 256) as u8] + rest);
            assert(out@ + le_bytes_n(v as nat, (8 - i) as nat) =~= out@.push((v % 256) as u8)
                + rest);
        }
        out.push((v % 256) as u8);
        v = v / 256;
        i += 1;
    }
    proof {
        assert(out@ + le_bytes_n(v as nat, 0) =~= out@);
    }
    out
}

/// The bytes of `a` from `start` up to `end`.
pub fn copy_range(a: &[u8], start: usize, end: usize) -> (r: Vec<u8>)
    requires
        start <= end <= a@.len(),
    ensures
        r@ == a@.subrange(start as int, end as int),
{
    let mut out: Vec<u8> = Vec::new();
    let mut i: usize = start;
    while i < end
        invariant
            start <= i <= end <= a@.len(),
            out@ == a@.subrange(start as int, i as int),
        decreases end - i,
    {
        out.push(a[i]);
        i += 1;
        assert(out@ =~= a@.subrange(start as int, i as int));
    }
    out
}

/// The bytes of `a` after the first.
pub fn drop_first(a: &Vec<u8>) -> (r: Vec<u8>)
    requires
        a@.len() > 0,
    ensures
        r@ == a@.drop_first(),
{
    let mut out: Vec<u8> = Vec::new();
    let mut i: usize = 1;
    while i < a.len()
        invariant
            1 <= i <= a@.len(),
            out@ == a@.subrange(1, i as int),
        decreases a@.len() - i,
    {
        out.push(a[i]);
        i += 1;
        assert(out@ =~= a@.subrange(1, i as int));
    }
    assert(out@ =~= a@.drop_first());
    out
}

} // verus!
