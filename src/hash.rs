use crate::bytes::Bytes32;
use crate::clvm::{parse, ser, serializable, Program, Tree};
use vstd::prelude::*;

verus! {

/// The SHA-256 digest of a byte string.
pub uninterp spec fn sha256_of(data: Seq<u8>) -> Seq<u8>;

/// The tree hash of an atom.
pub open spec fn atom_hash(a: Seq<u8>) -> Seq<u8> {
    sha256_of(seq![1u8] + a)
}

/// The tree hash of a pair, from the tree hashes of its two halves.
pub open spec fn pair_hash(first: Seq<u8>, rest: Seq<u8>) -> Seq<u8> {
    sha256_of(seq![2u8] + first + rest)
}

/// The tree hash of a CLVM value.
pub open spec fn tree_hash(t: Tree) -> Seq<u8>
    decreases t,
{
    match t {
        Tree::Atom(a) => atom_hash(a),
        Tree::Pair(l, r) => pair_hash(tree_hash(*l), tree_hash(*r)),
    }
}

/// The tree hash of the environment built when the argument hashes `args`
/// are curried into a program.
pub open spec fn curried_args_hash(args: Seq<Seq<u8>>) -> Seq<u8>
    decreases args.len(),
{
    if args.len() == 0 {
        atom_hash(seq![1u8])
    } else {
        pair_hash(
            atom_hash(seq![4u8]),
            pair_hash(
                pair_hash(atom_hash(seq![1u8]), args[0]),
                pair_hash(curried_args_hash(args.drop_first()), atom_hash(seq![])),
            ),
        )
    }
}

/// The tree hash of the program with hash `program` curried with the argument hashes `args`.
pub open spec fn curry_hash(program: Seq<u8>, args: Seq<Seq<u8>>) -> Seq<u8> {
    pair_hash(
        atom_hash(seq![2u8]),
        pair_hash(
            pair_hash(atom_hash(seq![1u8]), program),
            pair_hash(curried_args_hash(args), atom_hash(seq![])),
        ),
    )
}

/// Relies on clvm_utils::tree_hash_atom: SHA-256 of the byte 1 followed by the atom.
#[verifier::external_body]
pub fn tree_hash_atom(a: &Vec<u8>) -> (r: Bytes32)
    ensures
        r@ == sha256_of(seq![1u8] + a@),
{
    Bytes32 { bytes: clvm_utils::tree_hash_atom(a.as_slice()).to_bytes() }
}

/// Relies on clvm_utils::tree_hash_pair: SHA-256 of the byte 2 followed by both hashes.
#[verifier::external_body]
pub fn tree_hash_pair(first: Bytes32, rest: Bytes32) -> (r: Bytes32)
    ensures
        r@ == sha256_of(seq![2u8] + first@ + rest@),
{
    let first = clvm_utils::TreeHash::new(first.bytes);
    let rest = clvm_utils::TreeHash::new(rest.bytes);
    Bytes32 { bytes: clvm_utils::tree_hash_pair(first, rest).to_bytes() }
}

pub open spec fn views(v: Seq<Bytes32>) -> Seq<Seq<u8>> {
    v.map_values(|b: Bytes32| b@)
}

/// Relies on clvm_utils::curry_tree_hash: the hash of `(a (q . program) args)`
/// with each argument quoted and consed onto the environment.
#[verifier::external_body]
pub fn curry_tree_hash(program: Bytes32, args: &Vec<Bytes32>) -> (r: Bytes32)
    ensures
        r@ == curry_hash(program@, views(args@)),
{
    let args: Vec<clvm_utils::TreeHash> =
        args.iter().map(|a| clvm_utils::TreeHash::new(a.bytes)).collect();
    let program = clvm_utils::TreeHash::new(program.bytes);
    Bytes32 { bytes: clvm_utils::curry_tree_hash(program, &args).to_bytes() }
}

/// The tree hash of a CLVM value, computed without serializing it.
pub fn tree_hash_of(p: &Program) -> (r: Bytes32)
    ensures
        r@ == tree_hash(p.tree()),
    decreases p,
{
    match p {
        Program::Atom(a) => tree_hash_atom(a),
        Program::Pair(l, r) => {
            let hl = tree_hash_of(l);
            let hr = tree_hash_of(r);
            tree_hash_pair(hl, hr)
        },
    }
}

/// The tree hash of a 32-byte atom.
pub fn hash_bytes32(b: Bytes32) -> (r: Bytes32)
    ensures
        r@ == atom_hash(b@),
{
    let v = b.to_vec();
    tree_hash_atom(&v)
}

/// `bytes` serialize a value whose tree hash is `hash`.
pub open spec fn template_ok(bytes: Seq<u8>, hash: Seq<u8>) -> bool {
    exists|t: Tree| serializable(t) && #[trigger] ser(t) == bytes && tree_hash(t) == hash
}

/// Reads a serialized program and checks it against its published hash.
pub fn read_template(bytes: &Vec<u8>, expected: Bytes32) -> (r: Option<Program>)
    ensures
        r matches Some(p) ==> serializable(p.tree()) && ser(p.tree()) == bytes@ && tree_hash(p.tree()) == expected@,
        template_ok(bytes@, expected@) ==> r is Some,
{
    match parse(bytes) {
        Some(p) => {
            proof {
                if exists|t: Tree| serializable(t) && #[trigger] ser(t) == bytes@ && tree_hash(t) == expected@ {
                    let t = choose|t: Tree| serializable(t) && #[trigger] ser(t) == bytes@ && tree_hash(t) == expected@;
                    assert(p.tree() == t);
                }
            }
            if tree_hash_of(&p).same(&expected) {
                Some(p)
            } else {
                None
            }
        },
        None => None,
    }
}

} // verus!

verus! {

/// The environment of a curried program: each argument quoted and consed
/// onto the rest, ending in the whole environment `1`.
pub open spec fn curried_args_tree(args: Seq<Tree>) -> Tree
    decreases args.len(),
{
    if args.len() == 0 {
        Tree::Atom(seq![1u8])
    } else {
        Tree::Pair(
            Box::new(Tree::Atom(seq![4u8])),
            Box::new(Tree::Pair(
                Box::new(Tree::Pair(Box::new(Tree::Atom(seq![1u8])), Box::new(args[0]))),
                Box::new(Tree::Pair(Box::new(curried_args_tree(args.drop_first())), Box::new(Tree::Atom(seq![])))),
            )),
        )
    }
}

/// The program `(a (q . program) env)` that runs `program` with `args` curried in.
pub open spec fn curried_tree(program: Tree, args: Seq<Tree>) -> Tree {
    Tree::Pair(
        Box::new(Tree::Atom(seq![2u8])),
        Box::new(Tree::Pair(
            Box::new(Tree::Pair(Box::new(Tree::Atom(seq![1u8])), Box::new(program))),
            Box::new(Tree::Pair(Box::new(curried_args_tree(args)), Box::new(Tree::Atom(seq![])))),
        )),
    )
}

pub open spec fn tree_hashes(args: Seq<Tree>) -> Seq<Seq<u8>> {
    args.map_values(|t: Tree| tree_hash(t))
}

proof fn lemma_curried_args_hash(args: Seq<Tree>)
    ensures
        tree_hash(curried_args_tree(args)) == curried_args_hash(tree_hashes(args)),
    decreases args.len(),
{
    if args.len() > 0 {
        lemma_curried_args_hash(args.drop_first());
        assert(tree_hashes(args.drop_first()) =~= tree_hashes(args).drop_first());
        assert(tree_hashes(args)[0] == tree_hash(args[0]));
        reveal_with_fuel(tree_hash, 4);
    } else {
        reveal_with_fuel(tree_hash, 1);
    }
}

/// Hashing a curried program without building it gives the hash of the
/// program built in full.
pub proof fn lemma_curry_hash_matches(program: Tree, args: Seq<Tree>)
    ensures
        tree_hash(curried_tree(program, args)) == curry_hash(tree_hash(program), tree_hashes(args)),
{
    lemma_curried_args_hash(args);
    reveal_with_fuel(tree_hash, 4);
}

fn small_atom(b: u8) -> (r: Program)
    ensures
        r.tree() == Tree::Atom(seq![b]),
{
    let mut v: Vec<u8> = Vec::new();
    v.push(b);
    assert(v@ =~= seq![b]);
    Program::Atom(v)
}

fn quoted(p: Program) -> (r: Program)
    ensures
        r.tree() == Tree::Pair(Box::new(Tree::Atom(seq![1u8])), Box::new(p.tree())),
{
    Program::Pair(Box::new(small_atom(1)), Box::new(p))
}

fn nil_program() -> (r: Program)
    ensures
        r.tree() == Tree::Atom(seq![]),
{
    let r = Program::Atom(Vec::new());
    assert(r.tree() == Tree::Atom(Seq::<u8>::empty()));
    assert(Seq::<u8>::empty() =~= seq![]);
    r
}

/// Builds `program` with `args` curried in.
pub fn curry(program: Program, args: Vec<Program>) -> (r: Program)
    ensures
        r.tree() == curried_tree(program.tree(), args@.map_values(|a: Program| a.tree())),
{
    let ghost trees = args@.map_values(|a: Program| a.tree());
    let mut rest = args;
    let mut env = small_atom(1);
    proof {
        assert(trees.subrange(trees.len() as int, trees.len() as int) =~= Seq::<Tree>::empty());
    }
    while rest.len() > 0
        invariant
            rest@.len() <= trees.len(),
            forall|i: int| 0 <= i < rest@.len() ==> #[trigger] rest@[i].tree() == trees[i],
            env.tree() == curried_args_tree(trees.subrange(rest@.len() as int, trees.len() as int)),
            trees.len() == args@.len(),
        decreases rest@.len(),
    {
        let ghost k = rest@.len() - 1;
        let ghost before = rest@;
        let arg = rest.pop().unwrap();
        let ghost tail = trees.subrange(k, trees.len() as int);
        proof {
            assert(tail.drop_first() =~= trees.subrange(k + 1, trees.len() as int));
            assert(tail[0] == trees[k]);
            assert(arg == before[k]);
            assert(arg.tree() == trees[k]);
        }
        let ghost old_env = env.tree();
        let pair_tail = Program::Pair(Box::new(env), Box::new(nil_program()));
        assert(pair_tail.tree() == Tree::Pair(Box::new(old_env), Box::new(Tree::Atom(seq![]))));
        let q = quoted(arg);
        let body = Program::Pair(Box::new(q), Box::new(pair_tail));
        assert(body.tree() == Tree::Pair(Box::new(q.tree()), Box::new(pair_tail.tree())));
        let four = small_atom(4);
        env = Program::Pair(Box::new(four), Box::new(body));
        assert(env.tree() == Tree::Pair(Box::new(four.tree()), Box::new(body.tree())));
        assert(env.tree() == curried_args_tree(tail));
    }
    assert(trees.subrange(0, trees.len() as int) =~= trees);
    let ghost program_tree = program.tree();
    let last = Program::Pair(Box::new(env), Box::new(nil_program()));
    let q = quoted(program);
    let body = Program::Pair(Box::new(q), Box::new(last));
    let two = small_atom(2);
    let r = Program::Pair(Box::new(two), Box::new(body));
    assert(r.tree() == Tree::Pair(Box::new(two.tree()), Box::new(body.tree())));
    assert(body.tree() == Tree::Pair(Box::new(q.tree()), Box::new(last.tree())));
    r
}

} // verus!
