use crate::codec::{digits_in, lemma_digits_value, pow_in, value_in};
use vstd::prelude::*;

verus! {

/// A CLVM value as the program model sees it: an atom of bytes or a pair.
pub enum Tree {
    Atom(Seq<u8>),
    Pair(Box<Tree>, Box<Tree>),
}

/// An executable CLVM value, used for hints, scripts and solutions.
#[derive(Debug)]
pub enum Program {
    Atom(Vec<u8>),
    Pair(Box<Program>, Box<Program>),
}

impl Program {
    /// The tree that this value holds.
    pub open spec fn tree(&self) -> Tree
        decreases self,
    {
        match self {
            Program::Atom(a) => Tree::Atom(a@),
            Program::Pair(l, r) => Tree::Pair(Box::new(l.tree()), Box::new(r.tree())),
        }
    }

    /// A deep copy.
    pub fn duplicate(&self) -> (r: Program)
        ensures
            r.tree() == self.tree(),
        decreases self,
    {
        match self {
            Program::Atom(a) => Program::Atom(a.clone()),
            Program::Pair(l, r) => {
                let l2 = l.duplicate();
                let r2 = r.duplicate();
                Program::Pair(Box::new(l2), Box::new(r2))
            },
        }
    }
}

/// Atoms must be shorter than this for CLVM's serialization to express their length.
pub const ATOM_LIMIT: u64 = 0x4_0000_0000;

/// Every atom of `t` has a length that CLVM's serialization can express.
pub open spec fn serializable(t: Tree) -> bool
    decreases t,
{
    match t {
        Tree::Atom(a) => a.len() < ATOM_LIMIT,
        Tree::Pair(l, r) => serializable(*l) && serializable(*r),
    }
}

/// How many bytes the length prefix of an atom of length `n` takes.
pub open spec fn prefix_class(n: nat) -> nat {
    if n < 0x40 {
        1
    } else if n < 0x2000 {
        2
    } else if n < 0x10_0000 {
        3
    } else if n < 0x800_0000 {
        4
    } else {
        5
    }
}

/// The marker bits of the first byte of a `k`-byte length prefix.
pub open spec fn prefix_base(k: nat) -> nat {
    if k == 1 {
        0x80
    } else if k == 2 {
        0xc0
    } else if k == 3 {
        0xe0
    } else if k == 4 {
        0xf0
    } else {
        0xf8
    }
}

/// The length of the prefix that starts with the byte `c` (at least 0x80);
/// zero for the bytes that start no prefix.
pub open spec fn prefix_len(c: u8) -> nat {
    if c < 0xc0 {
        1
    } else if c < 0xe0 {
        2
    } else if c < 0xf0 {
        3
    } else if c < 0xf8 {
        4
    } else if c < 0xfc {
        5
    } else {
        0
    }
}

/// The length prefix of an atom of length `n`: marker bits and the high
/// bits of `n` in the first byte, then the remaining bytes of `n`, big-endian.
pub open spec fn size_prefix(n: nat) -> Seq<u8> {
    let k = prefix_class(n);
    let b = pow_in(256, (k - 1) as nat);
    seq![(prefix_base(k) + n / b) as u8] + digits_in(n % b, (k - 1) as nat, 256)
}

/// The atom length that the prefix `p` holds.
pub open spec fn prefix_value(p: Seq<u8>) -> nat {
    let k = p.len();
    ((p[0] - prefix_base(k)) * pow_in(256, (k - 1) as nat) + value_in(p.drop_first(), 256)) as nat
}

/// The CLVM serialization of an atom: a byte below 0x80 stands for itself,
/// any other atom is its length prefix followed by its bytes.
pub open spec fn atom_bytes(a: Seq<u8>) -> Seq<u8> {
    if a.len() == 1 && a[0] <= 0x7f {
        a
    } else {
        size_prefix(a.len()) + a
    }
}

/// The CLVM serialization of a tree: `0xff` before each pair, atoms length-prefixed.
pub open spec fn ser(t: Tree) -> Seq<u8>
    decreases t,
{
    match t {
        Tree::Atom(a) => atom_bytes(a),
        Tree::Pair(l, r) => seq![0xffu8] + ser(*l) + ser(*r),
    }
}

pub proof fn lemma_size_prefix(n: nat)
    requires
        n < ATOM_LIMIT,
    ensures
        0x80 <= size_prefix(n)[0] < 0xfc,
        size_prefix(n).len() == prefix_len(size_prefix(n)[0]),
        size_prefix(n).len() == prefix_class(n),
        prefix_value(size_prefix(n)) == n,
{
    reveal_with_fuel(pow_in, 5);
    let k = prefix_class(n);
    let b = pow_in(256, (k - 1) as nat);
    let top: nat = if k == 1 { 0x40 } else if k == 2 { 0x20 } else if k == 3 { 0x10 } else if k == 4 { 8 } else { 4 };
    assert(n < top * b);
    assert(b > 0);
    let q = n / b;
    let r = n % b;
    assert(q < top && b * q + r == n && 0 <= r < b) by (nonlinear_arith)
        requires n < top * b, b > 0, q == n / b, r == n % b;
    lemma_digits_value(r, (k - 1) as nat, 256);
    let p = size_prefix(n);
    assert(p.drop_first() =~= digits_in(r, (k - 1) as nat, 256));
    assert(p[0] == (prefix_base(k) + q) as u8);
    assert(q * b == b * q) by (nonlinear_arith);
}

pub proof fn lemma_ser_nonempty(t: Tree)
    requires
        serializable(t),
    ensures
        ser(t).len() >= 1,
        ser(t)[0] == 0xff <==> t is Pair,
        t is Atom ==> (ser(t)[0] <= 0x7f <==> (t->Atom_0.len() == 1 && t->Atom_0[0] <= 0x7f)),
{
    match t {
        Tree::Atom(a) => {
            if !(a.len() == 1 && a[0] <= 0x7f) {
                lemma_size_prefix(a.len());
            }
        },
        Tree::Pair(l, r) => {},
    }
}

/// The serialization is prefix-free: a stream holds at most one tree at its front.
pub proof fn lemma_ser_prefix_free(t1: Tree, rest1: Seq<u8>, t2: Tree, rest2: Seq<u8>)
    requires
        serializable(t1),
        serializable(t2),
        ser(t1) + rest1 == ser(t2) + rest2,
    ensures
        t1 == t2,
        rest1 == rest2,
    decreases t1,
{
    lemma_ser_nonempty(t1);
    lemma_ser_nonempty(t2);
    let s = ser(t1) + rest1;
    assert(s[0] == ser(t1)[0]);
    assert(s[0] == ser(t2)[0]);
    match t1 {
        Tree::Atom(a1) => {
            match t2 {
                Tree::Atom(a2) => {
                    let c = s[0];
                    if c <= 0x7f {
                        assert(a1 =~= seq![c]);
                        assert(a2 =~= seq![c]);
                    } else {
                        lemma_size_prefix(a1.len());
                        lemma_size_prefix(a2.len());
                        let k = prefix_len(c) as int;
                        assert(size_prefix(a1.len()) =~= s.subrange(0, k));
                        assert(size_prefix(a2.len()) =~= s.subrange(0, k));
                        let n = a1.len() as int;
                        assert(a2.len() == n);
                        assert(a1 =~= s.subrange(k, k + n));
                        assert(a2 =~= s.subrange(k, k + n));
                    }
                    let n1 = ser(t1).len();
                    assert(ser(t1) =~= s.subrange(0, n1 as int));
                    assert(ser(t2) =~= s.subrange(0, n1 as int));
                    assert(rest1 =~= s.subrange(n1 as int, s.len() as int));
                    assert(rest2 =~= s.subrange(n1 as int, s.len() as int));
                },
                Tree::Pair(_, _) => {},
            }
        },
        Tree::Pair(l1, r1) => {
            match t2 {
                Tree::Atom(_) => {},
                Tree::Pair(l2, r2) => {
                    let tail = s.subrange(1, s.len() as int);
                    assert(tail =~= ser(*l1) + (ser(*r1) + rest1));
                    assert(tail =~= ser(*l2) + (ser(*r2) + rest2));
                    lemma_ser_prefix_free(*l1, ser(*r1) + rest1, *l2, ser(*r2) + rest2);
                    lemma_ser_prefix_free(*r1, rest1, *r2, rest2);
                },
            }
        },
    }
}

proof fn lemma_atom_head(t: Tree, rest: Seq<u8>, suffix: Seq<u8>)
    requires
        serializable(t),
        ser(t) + rest == suffix,
        0x80 <= suffix[0],
        suffix[0] != 0xff,
    ensures
        t is Atom,
        prefix_len(suffix[0]) > 0,
        ser(t) == size_prefix(t->Atom_0.len()) + t->Atom_0,
        size_prefix(t->Atom_0.len()) == suffix.subrange(0, prefix_len(suffix[0]) as int),
        t->Atom_0.len() == prefix_value(suffix.subrange(0, prefix_len(suffix[0]) as int)),
        ser(t).len() == prefix_len(suffix[0]) + t->Atom_0.len(),
        t->Atom_0 == suffix.subrange(prefix_len(suffix[0]) as int, (prefix_len(suffix[0]) + t->Atom_0.len()) as int),
{
    lemma_ser_nonempty(t);
    assert((ser(t) + rest)[0] == ser(t)[0]);
    let a = t->Atom_0;
    lemma_size_prefix(a.len());
    assert(ser(t) == size_prefix(a.len()) + a);
    assert(ser(t)[0] == size_prefix(a.len())[0]);
    let k = prefix_len(suffix[0]) as int;
    assert(size_prefix(a.len()) =~= suffix.subrange(0, k));
    assert(a =~= suffix.subrange(k, k + a.len()));
}

/// The big-endian bytes of `m`, exactly `len` of them.
fn be_bytes(m: u64, len: usize) -> (r: Vec<u8>)
    ensures
        r@ == digits_in(m as nat, len as nat, 256),
    decreases len,
{
    if len == 0 {
        Vec::new()
    } else {
        let mut v = be_bytes(m / 256, len - 1);
        v.push((m % 256) as u8);
        v
    }
}

fn push_all(out: &mut Vec<u8>, a: &Vec<u8>)
    ensures
        final(out)@ == old(out)@ + a@,
{
    let mut i: usize = 0;
    while i < a.len()
        invariant
            0 <= i <= a@.len(),
            out@ == old(out)@ + a@.subrange(0, i as int),
        decreases a.len() - i,
    {
        out.push(a[i]);
        i = i + 1;
        assert(out@ =~= old(out)@ + a@.subrange(0, i as int));
    }
    assert(a@.subrange(0, a@.len() as int) =~= a@);
}

/// The length prefix of an atom of `n` bytes.
fn write_prefix(n: u64) -> (r: Vec<u8>)
    requires
        n < ATOM_LIMIT,
    ensures
        r@ == size_prefix(n as nat),
{
    proof {
        reveal_with_fuel(pow_in, 5);
    }
    let (k, base, b): (usize, u64, u64) = if n < 0x40 {
        (1, 0x80, 1)
    } else if n < 0x2000 {
        (2, 0xc0, 0x100)
    } else if n < 0x10_0000 {
        (3, 0xe0, 0x1_0000)
    } else if n < 0x800_0000 {
        (4, 0xf0, 0x100_0000)
    } else {
        (5, 0xf8, 0x1_0000_0000)
    };
    proof {
        lemma_size_prefix(n as nat);
    }
    let first = (base + n / b) as u8;
    let mut r: Vec<u8> = Vec::new();
    r.push(first);
    let rest = be_bytes(n % b, k - 1);
    push_all(&mut r, &rest);
    assert(r@ =~= size_prefix(n as nat));
    r
}

/// Appends the serialization of `p` to `out`.
pub fn serialize_into(p: &Program, out: &mut Vec<u8>)
    requires
        serializable(p.tree()),
    ensures
        final(out)@ == old(out)@ + ser(p.tree()),
    decreases p,
{
    match p {
        Program::Atom(a) => {
            if a.len() == 1 && a[0] <= 0x7f {
                out.push(a[0]);
                assert(a@ =~= seq![a@[0]]);
                assert(final(out)@ =~= old(out)@ + ser(p.tree()));
            } else {
                let prefix = write_prefix(a.len() as u64);
                push_all(out, &prefix);
                push_all(out, a);
                assert(final(out)@ =~= old(out)@ + ser(p.tree()));
            }
        },
        Program::Pair(l, r) => {
            out.push(0xffu8);
            serialize_into(l, out);
            serialize_into(r, out);
            assert(final(out)@ =~= old(out)@ + ser(p.tree()));
        },
    }
}

/// The CLVM serialization of `p`.
pub fn serialize(p: &Program) -> (r: Vec<u8>)
    requires
        serializable(p.tree()),
    ensures
        r@ == ser(p.tree()),
{
    let mut out: Vec<u8> = Vec::new();
    serialize_into(p, &mut out);
    assert(out@ =~= ser(p.tree()));
    out
}

fn same_range(s: &Vec<u8>, start: usize, e: &Vec<u8>) -> (r: bool)
    requires
        start + e@.len() <= s@.len(),
    ensures
        r == (s@.subrange(start as int, start + e@.len()) == e@),
{
    let total = s.len();
    let mut i: usize = 0;
    while i < e.len()
        invariant
            0 <= i <= e@.len(),
            total == s@.len(),
            start + e@.len() <= s@.len(),
            forall|j: int| 0 <= j < i ==> s@[start + j] == e@[j],
        decreases e.len() - i,
    {
        if s[start + i] != e[i] {
            assert(s@.subrange(start as int, start + e@.len())[i as int] != e@[i as int]);
            return false;
        }
        i = i + 1;
    }
    assert(s@.subrange(start as int, start + e@.len()) =~= e@);
    true
}

proof fn lemma_pow256_small(i: nat)
    requires
        i <= 4,
    ensures
        pow_in(256, i) == (if i == 0 { 1nat } else if i == 1 { 0x100nat } else if i == 2 { 0x1_0000nat } else if i == 3 {
            0x100_0000nat } else { 0x1_0000_0000nat }),
{
    reveal_with_fuel(pow_in, 5);
}

/// The big-endian value of the `count` bytes of `s` from `from`.
fn read_be(s: &Vec<u8>, from: usize, count: usize) -> (r: u64)
    requires
        count <= 4,
        from + count <= s@.len(),
    ensures
        r == value_in(s@.subrange(from as int, from + count), 256),
        r < pow_in(256, count as nat),
{
    let total = s.len();
    let mut v: u64 = 0;
    let mut i: usize = 0;
    while i < count
        invariant
            0 <= i <= count,
            total == s@.len(),
            count <= 4,
            from + count <= s@.len(),
            v == value_in(s@.subrange(from as int, from + i), 256),
            v < pow_in(256, i as nat),
        decreases count - i,
    {
        proof {
            lemma_pow256_small(i as nat);
            lemma_pow256_small((i + 1) as nat);
            assert(s@.subrange(from as int, from + i + 1).drop_last() =~= s@.subrange(from as int, from + i));
            assert(pow_in(256, (i + 1) as nat) <= 0x1_0000_0000);
            assert(v * 256 + 255 < pow_in(256, (i + 1) as nat)) by (nonlinear_arith)
                requires v < pow_in(256, i as nat), pow_in(256, (i + 1) as nat) == 256 * pow_in(256, i as nat);
        }
        v = v * 256 + s[from + i] as u64;
        i = i + 1;
    }
    v
}

fn copy_range(s: &Vec<u8>, start: usize, len: usize) -> (r: Vec<u8>)
    requires
        start + len <= s@.len(),
    ensures
        r@ == s@.subrange(start as int, start + len),
{
    let total = s.len();
    let mut atom: Vec<u8> = Vec::new();
    let mut j: usize = 0;
    while j < len
        invariant
            0 <= j <= len,
            start + len <= s@.len(),
            total == s@.len(),
            atom@ == s@.subrange(start as int, start + j),
        decreases len - j,
    {
        atom.push(s[start + j]);
        j = j + 1;
        assert(atom@ =~= s@.subrange(start as int, start + j));
    }
    atom
}

/// Reads the atom whose length prefix starts at `pos`, accepting it only when
/// it is written the way `ser` writes it.
#[verifier::rlimit(50)]
fn parse_atom_at(s: &Vec<u8>, pos: usize) -> (r: Option<(Program, usize)>)
    requires
        pos < s@.len(),
        s@[pos as int] >= 0x80,
        s@[pos as int] != 0xff,
    ensures
        r matches Some((p, end)) ==> pos < end <= s@.len() && serializable(p.tree())
            && s@.subrange(pos as int, end as int) == ser(p.tree()),
        forall|t: Tree, rest: Seq<u8>|
            serializable(t) && #[trigger] (ser(t) + rest) == s@.subrange(pos as int, s@.len() as int)
                ==> (r matches Some((p, end)) && p.tree() == t && end == pos + ser(t).len()),
{
    let c = s[pos];
    let ghost suffix = s@.subrange(pos as int, s@.len() as int);
    let (k, base): (usize, u64) = if c < 0xc0 {
        (1, 0x80)
    } else if c < 0xe0 {
        (2, 0xc0)
    } else if c < 0xf0 {
        (3, 0xe0)
    } else if c < 0xf8 {
        (4, 0xf0)
    } else if c < 0xfc {
        (5, 0xf8)
    } else {
        proof {
            assert forall|t: Tree, rest: Seq<u8>|
                serializable(t) && #[trigger] (ser(t) + rest) == suffix implies false by {
                lemma_ser_nonempty(t);
                assert((ser(t) + rest)[0] == ser(t)[0]);
                if let Tree::Atom(a) = t {
                    lemma_size_prefix(a.len());
                }
            }
        }
        return None;
    };
    assert(k == prefix_len(c) && base == prefix_base(k as nat));
    if k > s.len() - pos {
        proof {
            assert forall|t: Tree, rest: Seq<u8>|
                serializable(t) && #[trigger] (ser(t) + rest) == suffix implies false by {
                lemma_atom_head(t, rest, suffix);
            }
        }
        return None;
    }
    let v = read_be(s, pos + 1, k - 1);
    let b: u64 = if k == 1 { 1 } else if k == 2 { 0x100 } else if k == 3 { 0x1_0000 } else if k == 4 { 0x100_0000 } else { 0x1_0000_0000 };
    proof {
        lemma_pow256_small((k - 1) as nat);
        assert(v < b);
        assert(c as u64 - base < 0x40);
    }
    let hi = c as u64 - base;
    assert(hi * b <= 0x40 * 0x1_0000_0000) by (nonlinear_arith)
        requires hi < 0x40, b <= 0x1_0000_0000;
    let n = hi * b + v;
    proof {
        assert(s@.subrange(pos as int, pos + k).drop_first() =~= s@.subrange(pos + 1, pos + k));
        assert(b == pow_in(256, (k - 1) as nat));
        assert(n == prefix_value(s@.subrange(pos as int, pos + k)));
    }
    assert(suffix.subrange(0, k as int) =~= s@.subrange(pos as int, pos + k));
    assert(suffix[0] == c);
    if n > (s.len() - pos - k) as u64 {
        proof {
            assert forall|t: Tree, rest: Seq<u8>|
                serializable(t) && #[trigger] (ser(t) + rest) == suffix implies false by {
                lemma_atom_head(t, rest, suffix);
                assert(t->Atom_0.len() == n);
                assert((ser(t) + rest).len() == suffix.len());
                assert(suffix.len() == s@.len() - pos);
            }
        }
        return None;
    }
    let start = pos + k;
    let len = n as usize;
    let atom = copy_range(s, start, len);
    let p = Program::Atom(atom);
    proof {
        let top: int = if k == 1 { 0x40 } else if k == 2 { 0x20 } else if k == 3 { 0x10 } else if k == 4 { 8 } else { 4 };
        assert(hi < top);
        assert(b * top <= ATOM_LIMIT);
        assert(n < ATOM_LIMIT) by (nonlinear_arith)
            requires n == hi * b + v, v < b, hi < top, b * top <= ATOM_LIMIT, hi >= 0;
    }
    let enc = serialize(&p);
    if enc.len() <= s.len() - pos && same_range(s, pos, &enc) {
        proof {
            assert(ser(p.tree()) + s@.subrange(pos + enc@.len(), s@.len() as int) =~= suffix);
            assert forall|t: Tree, rest: Seq<u8>|
                serializable(t) && #[trigger] (ser(t) + rest) == suffix
                implies p.tree() == t && pos + enc@.len() == pos + ser(t).len() by {
                lemma_ser_prefix_free(t, rest, p.tree(), s@.subrange(pos + enc@.len(), s@.len() as int));
            }
        }
        Some((p, pos + enc.len()))
    } else {
        proof {
            assert forall|t: Tree, rest: Seq<u8>|
                serializable(t) && #[trigger] (ser(t) + rest) == suffix implies false by {
                lemma_atom_head(t, rest, suffix);
                let a = t->Atom_0;
                assert(size_prefix(a.len()) =~= s@.subrange(pos as int, pos + k));
                assert(a.len() == n);
                assert(a =~= s@.subrange(start as int, start + len));
                assert(a =~= p.tree()->Atom_0);
                assert(t == p.tree());
                assert(ser(t) =~= s@.subrange(pos as int, pos + ser(t).len()));
            }
        }
        None
    }
}

/// Reads one tree from `s` at `pos`, returning it and the position after it.
pub fn parse_at(s: &Vec<u8>, pos: usize) -> (r: Option<(Program, usize)>)
    requires
        pos <= s@.len(),
    ensures
        r matches Some((p, end)) ==> pos < end <= s@.len() && serializable(p.tree())
            && s@.subrange(pos as int, end as int) == ser(p.tree()),
        forall|t: Tree, rest: Seq<u8>|
            serializable(t) && #[trigger] (ser(t) + rest) == s@.subrange(pos as int, s@.len() as int)
                ==> (r matches Some((p, end)) && p.tree() == t && end == pos + ser(t).len()),
    decreases s@.len() - pos,
{
    if pos >= s.len() {
        proof {
            assert forall|t: Tree, rest: Seq<u8>|
                serializable(t) && #[trigger] (ser(t) + rest) == s@.subrange(pos as int, s@.len() as int)
                implies false by {
                lemma_ser_nonempty(t);
                assert((ser(t) + rest).len() == 0);
            }
        }
        return None;
    }
    let b = s[pos];
    let ghost suffix = s@.subrange(pos as int, s@.len() as int);
    if b == 0xff {
        let left = parse_at(s, pos + 1);
        match left {
            None => {
                proof {
                    assert forall|t: Tree, rest: Seq<u8>|
                        serializable(t) && #[trigger] (ser(t) + rest) == suffix implies false by {
                        lemma_ser_nonempty(t);
                        assert((ser(t) + rest)[0] == ser(t)[0]);
                        if let Tree::Pair(l, r) = t {
                            assert(ser(t) == seq![0xffu8] + ser(*l) + ser(*r));
                            assert((ser(t) + rest).subrange(1, (ser(t) + rest).len() as int) =~= ser(*l) + (ser(*r) + rest));
                            assert(suffix.subrange(1, suffix.len() as int) =~= s@.subrange(pos + 1, s@.len() as int));
                            assert(ser(*l) + (ser(*r) + rest) =~= s@.subrange(pos + 1, s@.len() as int));
                        }
                    }
                }
                None
            },
            Some((lp, mid)) => {
                let right = parse_at(s, mid);
                match right {
                    None => {
                        proof {
                            assert forall|t: Tree, rest: Seq<u8>|
                                serializable(t) && #[trigger] (ser(t) + rest) == suffix implies false by {
                                lemma_ser_nonempty(t);
                                assert((ser(t) + rest)[0] == ser(t)[0]);
                                if let Tree::Pair(l, r) = t {
                                    assert(ser(t) == seq![0xffu8] + ser(*l) + ser(*r));
                                    assert((ser(t) + rest).subrange(1, (ser(t) + rest).len() as int) =~= ser(*l) + (ser(*r) + rest));
                                    assert(suffix.subrange(1, suffix.len() as int) =~= s@.subrange(pos + 1, s@.len() as int));
                                    assert(ser(*l) + (ser(*r) + rest) =~= s@.subrange(pos + 1, s@.len() as int));
                                    assert(mid == pos + 1 + ser(*l).len());
                                    assert(s@.subrange(mid as int, s@.len() as int) =~= (ser(*l) + (ser(*r) + rest)).subrange(ser(*l).len() as int, (ser(*l) + (ser(*r) + rest)).len() as int));
                                    assert(ser(*r) + rest =~= s@.subrange(mid as int, s@.len() as int));
                                }
                            }
                        }
                        None
                    },
                    Some((rp, end)) => {
                        let p = Program::Pair(Box::new(lp), Box::new(rp));
                        proof {
                            assert(s@.subrange(pos as int, end as int) =~= seq![0xffu8]
                                + s@.subrange(pos + 1, mid as int) + s@.subrange(mid as int, end as int));
                            assert forall|t: Tree, rest: Seq<u8>|
                                serializable(t) && #[trigger] (ser(t) + rest) == suffix
                                implies p.tree() == t && end == pos + ser(t).len() by {
                                lemma_ser_nonempty(t);
                                assert((ser(t) + rest)[0] == ser(t)[0]);
                                if let Tree::Pair(l, r) = t {
                                    assert(ser(t) == seq![0xffu8] + ser(*l) + ser(*r));
                                    assert((ser(t) + rest).subrange(1, (ser(t) + rest).len() as int) =~= ser(*l) + (ser(*r) + rest));
                                    assert(suffix.subrange(1, suffix.len() as int) =~= s@.subrange(pos + 1, s@.len() as int));
                                    assert(ser(*l) + (ser(*r) + rest) =~= s@.subrange(pos + 1, s@.len() as int));
                                    assert(mid == pos + 1 + ser(*l).len());
                                    assert(s@.subrange(mid as int, s@.len() as int) =~= (ser(*l) + (ser(*r) + rest)).subrange(ser(*l).len() as int, (ser(*l) + (ser(*r) + rest)).len() as int));
                                    assert(ser(*r) + rest =~= s@.subrange(mid as int, s@.len() as int));
                                }
                            }
                        }
                        Some((p, end))
                    },
                }
            },
        }
    } else if b <= 0x7f {
        let mut v: Vec<u8> = Vec::new();
        v.push(b);
        let p = Program::Atom(v);
        proof {
            assert(s@.subrange(pos as int, pos + 1) =~= ser(p.tree()));
            assert forall|t: Tree, rest: Seq<u8>|
                serializable(t) && #[trigger] (ser(t) + rest) == suffix
                implies p.tree() == t && pos + 1 == pos + ser(t).len() by {
                lemma_ser_nonempty(t);
                assert((ser(t) + rest)[0] == ser(t)[0]);
                if let Tree::Atom(a) = t {
                    assert(a.len() == 1 && a[0] <= 0x7f);
                    assert(a =~= seq![b]);
                }
            }
        }
        Some((p, pos + 1))
    } else {
        parse_atom_at(s, pos)
    }
}

/// Reads a whole byte string as exactly one tree.
pub fn parse(s: &Vec<u8>) -> (r: Option<Program>)
    ensures
        r matches Some(p) ==> serializable(p.tree()) && ser(p.tree()) == s@,
        forall|t: Tree| serializable(t) && #[trigger] ser(t) == s@ ==> (r matches Some(p) && p.tree() == t),
{
    match parse_at(s, 0) {
        Some((p, end)) => {
            if end == s.len() {
                assert(s@.subrange(0, s@.len() as int) =~= s@);
                proof {
                    assert forall|t: Tree| serializable(t) && #[trigger] ser(t) == s@ implies p.tree() == t by {
                        assert(ser(t) + Seq::<u8>::empty() =~= s@.subrange(0, s@.len() as int));
                    }
                }
                Some(p)
            } else {
                proof {
                    assert forall|t: Tree| serializable(t) && #[trigger] ser(t) == s@ implies false by {
                        assert(ser(t) + Seq::<u8>::empty() =~= s@.subrange(0, s@.len() as int));
                    }
                }
                None
            }
        },
        None => {
            proof {
                assert forall|t: Tree| serializable(t) && #[trigger] ser(t) == s@ implies false by {
                    assert(ser(t) + Seq::<u8>::empty() =~= s@.subrange(0, s@.len() as int));
                }
            }
            None
        },
    }
}

} // verus!
