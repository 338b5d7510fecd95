use vstd::prelude::*;

verus! {

/// Minimal big-endian digits of `n` (no leading zero byte; empty for zero).
pub open spec fn be_digits(n: nat) -> Seq<u8>
    decreases n,
{
    if n == 0 {
        seq![]
    } else {
        be_digits(n / 256).push((n % 256) as u8)
    }
}

/// The unsigned big-endian value of a byte string.
pub open spec fn be_value(s: Seq<u8>) -> nat
    decreases s.len(),
{
    if s.len() == 0 {
        0
    } else {
        be_value(s.drop_last()) * 256 + s.last() as nat
    }
}

/// The CLVM atom of an unsigned 64-bit integer: minimal two's-complement
/// big-endian bytes, so a zero byte leads when the top bit would be set.
pub open spec fn u64_atom(n: u64) -> Seq<u8> {
    let d = be_digits(n as nat);
    if d.len() > 0 && d[0] >= 0x80 {
        seq![0u8] + d
    } else {
        d
    }
}

pub open spec fn pow256(k: nat) -> nat
    decreases k,
{
    if k == 0 {
        1
    } else {
        256 * pow256((k - 1) as nat)
    }
}

proof fn lemma_be_value_digits(n: nat)
    ensures
        be_value(be_digits(n)) == n,
    decreases n,
{
    if n > 0 {
        lemma_be_value_digits(n / 256);
        let d = be_digits(n / 256).push((n % 256) as u8);
        assert(d.drop_last() =~= be_digits(n / 256));
    }
}

proof fn lemma_be_value_leading_zero(d: Seq<u8>)
    ensures
        be_value(seq![0u8] + d) == be_value(d),
    decreases d.len(),
{
    if d.len() == 0 {
        let z = seq![0u8];
        assert(seq![0u8] + d =~= z);
        assert(z.drop_last() =~= Seq::<u8>::empty());
        assert(be_value(z) == be_value(z.drop_last()) * 256 + z.last() as nat);
    } else {
        lemma_be_value_leading_zero(d.drop_last());
        assert((seq![0u8] + d).drop_last() =~= seq![0u8] + d.drop_last());
        assert((seq![0u8] + d).last() == d.last());
    }
}

proof fn lemma_digits_len(n: nat, k: nat)
    requires
        n < pow256(k),
    ensures
        be_digits(n).len() <= k,
    decreases n,
{
    if n > 0 {
        assert(k > 0);
        assert(n / 256 < pow256((k - 1) as nat));
        lemma_digits_len(n / 256, (k - 1) as nat);
    }
}

proof fn lemma_be_value_bound(s: Seq<u8>)
    ensures
        be_value(s) < pow256(s.len()),
    decreases s.len(),
{
    if s.len() > 0 {
        lemma_be_value_bound(s.drop_last());
        let p = pow256((s.len() - 1) as nat);
        let v = be_value(s.drop_last());
        assert(v * 256 + s.last() < 256 * p) by (nonlinear_arith)
            requires v < p, s.last() < 256;
    }
}

pub proof fn lemma_u64_atom_facts(n: u64)
    ensures
        u64_atom(n).len() <= 9,
        be_value(u64_atom(n)) == n,
{
    lemma_pow256_eight();
    lemma_digits_len(n as nat, 8);
    lemma_be_value_digits(n as nat);
    lemma_be_value_leading_zero(be_digits(n as nat));
}

fn digits(n: u64) -> (r: Vec<u8>)
    ensures
        r@ == be_digits(n as nat),
    decreases n,
{
    if n == 0 {
        Vec::new()
    } else {
        let mut v = digits(n / 256);
        v.push((n % 256) as u8);
        v
    }
}

/// Encodes an integer as its CLVM atom.
pub fn encode_u64(n: u64) -> (r: Vec<u8>)
    ensures
        r@ == u64_atom(n),
{
    let d = digits(n);
    if d.len() > 0 && d[0] >= 0x80 {
        let mut r: Vec<u8> = Vec::new();
        r.push(0u8);
        let mut i: usize = 0;
        while i < d.len()
            invariant
                0 <= i <= d@.len(),
                r@ == seq![0u8] + d@.subrange(0, i as int),
            decreases d.len() - i,
        {
            r.push(d[i]);
            i = i + 1;
            assert(r@ =~= seq![0u8] + d@.subrange(0, i as int));
        }
        assert(d@.subrange(0, d@.len() as int) =~= d@);
        r
    } else {
        d
    }
}

fn same_bytes(a: &Vec<u8>, b: &Vec<u8>) -> (r: bool)
    ensures
        r == (a@ == b@),
{
    if a.len() != b.len() {
        return false;
    }
    let mut i: usize = 0;
    while i < a.len()
        invariant
            0 <= i <= a@.len(),
            a@.len() == b@.len(),
            forall|j: int| 0 <= j < i ==> a@[j] == b@[j],
        decreases a.len() - i,
    {
        if a[i] != b[i] {
            return false;
        }
        i = i + 1;
    }
    assert(a@ =~= b@);
    true
}

/// Reads an integer from its CLVM atom; only the canonical atom of a `u64` is accepted.
pub fn decode_u64(a: &Vec<u8>) -> (r: Option<u64>)
    ensures
        r matches Some(n) ==> u64_atom(n) == a@,
        forall|n: u64| #[trigger] u64_atom(n) == a@ ==> r == Some(n),
{
    if a.len() > 9 {
        proof {
            assert forall|n: u64| #[trigger] u64_atom(n) == a@ implies false by {
                lemma_u64_atom_facts(n);
            }
        }
        return None;
    }
    let mut v: u128 = 0;
    let mut i: usize = 0;
    while i < a.len()
        invariant
            0 <= i <= a@.len(),
            a@.len() <= 9,
            v == be_value(a@.subrange(0, i as int)),
        decreases a.len() - i,
    {
        proof {
            lemma_be_value_bound(a@.subrange(0, i as int));
            lemma_pow256_eight();
            assert(pow256(i as nat) <= pow256(8)) by {
                lemma_pow256_mono(i as nat, 8);
            }
            assert(a@.subrange(0, i + 1).drop_last() =~= a@.subrange(0, i as int));
        }
        v = v * 256 + a[i] as u128;
        i = i + 1;
    }
    assert(a@.subrange(0, a@.len() as int) =~= a@);
    if v > u64::MAX as u128 {
        proof {
            assert forall|n: u64| #[trigger] u64_atom(n) == a@ implies false by {
                lemma_u64_atom_facts(n);
            }
        }
        return None;
    }
    let n = v as u64;
    let back = encode_u64(n);
    if same_bytes(&back, a) {
        proof {
            assert forall|m: u64| #[trigger] u64_atom(m) == a@ implies m == n by {
                lemma_u64_atom_facts(m);
            }
        }
        Some(n)
    } else {
        proof {
            assert forall|m: u64| #[trigger] u64_atom(m) == a@ implies false by {
                lemma_u64_atom_facts(m);
            }
        }
        None
    }
}

proof fn lemma_pow256_eight()
    ensures
        pow256(8) == 0x1_0000_0000_0000_0000,
{
    reveal_with_fuel(pow256, 9);
}

proof fn lemma_pow256_mono(i: nat, k: nat)
    requires
        i <= k,
    ensures
        pow256(i) <= pow256(k),
    decreases k,
{
    if i < k {
        lemma_pow256_mono(i, (k - 1) as nat);
    }
}

} // verus!
