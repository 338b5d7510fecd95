use crate::bytes::Bytes32;
use crate::hash::{atom_hash, curry_hash, pair_hash, sha256_of};
use vstd::prelude::*;

verus! {

/// The serialized settlement template that the accept branch curries.
pub const PARTIAL_PUZZLE: [u8; 429] = [
    0xff, 0x02, 0xff, 0xff, 0x01, 0xff, 0x02, 0xff, 0xff, 0x01, 0xff, 0x04,
    0xff, 0xff, 0x04, 0xff, 0xff, 0x01, 0x3f, 0xff, 0xff, 0x04, 0xff, 0xff,
    0x0b, 0xff, 0x17, 0xff, 0xff, 0x02, 0xff, 0x05, 0xff, 0xff, 0x04, 0xff,
    0x05, 0xff, 0xff, 0x04, 0xff, 0x82, 0x04, 0xff, 0xff, 0xff, 0x04, 0xff,
    0xff, 0x04, 0xff, 0x2f, 0xff, 0xff, 0x04, 0xff, 0xff, 0x02, 0xff, 0xff,
    0x03, 0xff, 0xff, 0x15, 0xff, 0x82, 0x05, 0xff, 0xff, 0x81, 0xbf, 0x80,
    0xff, 0xff, 0x01, 0x82, 0x05, 0xff, 0xff, 0xff, 0x01, 0xff, 0x08, 0x80,
    0x80, 0xff, 0x01, 0x80, 0xff, 0xff, 0x04, 0xff, 0xff, 0x04, 0xff, 0x2f,
    0xff, 0x80, 0x80, 0xff, 0x80, 0x80, 0x80, 0x80, 0xff, 0x80, 0x80, 0x80,
    0x80, 0x80, 0x80, 0xff, 0x80, 0x80, 0x80, 0xff, 0xff, 0x04, 0xff, 0xff,
    0x04, 0xff, 0xff, 0x01, 0x46, 0xff, 0xff, 0x04, 0xff, 0xff, 0x30, 0xff,
    0x82, 0x04, 0xff, 0xff, 0xff, 0x02, 0xff, 0x0b, 0xff, 0xff, 0x04, 0xff,
    0x82, 0x0a, 0xff, 0xff, 0x82, 0x17, 0xff, 0x80, 0x80, 0xff, 0x82, 0x16,
    0xff, 0x80, 0xff, 0x80, 0x80, 0x80, 0xff, 0xff, 0x04, 0xff, 0xff, 0x03,
    0xff, 0xff, 0x15, 0xff, 0x04, 0xff, 0x80, 0x80, 0xff, 0xff, 0x04, 0xff,
    0xff, 0x01, 0x33, 0xff, 0xff, 0x04, 0xff, 0x82, 0x0a, 0xff, 0xff, 0xff,
    0x04, 0xff, 0x04, 0xff, 0xff, 0x04, 0xff, 0xff, 0x04, 0xff, 0x82, 0x0a,
    0xff, 0xff, 0x80, 0x80, 0xff, 0x80, 0x80, 0x80, 0x80, 0x80, 0xff, 0xff,
    0x04, 0xff, 0xff, 0x01, 0x01, 0xff, 0x80, 0x80, 0x80, 0xff, 0xff, 0x03,
    0xff, 0xff, 0x02, 0xff, 0xff, 0x03, 0xff, 0x82, 0x0b, 0xff, 0xff, 0xff,
    0x01, 0xff, 0x02, 0xff, 0xff, 0x03, 0xff, 0xff, 0x15, 0xff, 0x82, 0x2b,
    0xff, 0xff, 0xff, 0x01, 0x81, 0xff, 0x80, 0xff, 0xff, 0x01, 0xff, 0x01,
    0x01, 0xff, 0xff, 0x01, 0x80, 0x80, 0xff, 0x01, 0x80, 0xff, 0xff, 0x01,
    0x80, 0x80, 0xff, 0x01, 0x80, 0xff, 0xff, 0x04, 0xff, 0xff, 0x04, 0xff,
    0xff, 0x01, 0x33, 0xff, 0x82, 0x0b, 0xff, 0x80, 0xff, 0x06, 0x80, 0xff,
    0x06, 0x80, 0x80, 0x80, 0x80, 0xff, 0xff, 0x04, 0xff, 0xff, 0x04, 0xff,
    0xff, 0x11, 0xff, 0x82, 0x0b, 0x7f, 0xff, 0xff, 0x13, 0xff, 0xff, 0x12,
    0xff, 0x82, 0x02, 0xff, 0xff, 0x82, 0x01, 0x3f, 0x80, 0xff, 0x82, 0x01,
    0xbf, 0x80, 0x80, 0xff, 0xff, 0x02, 0xff, 0x2f, 0xff, 0x82, 0x0f, 0xff,
    0x80, 0x80, 0xff, 0x01, 0x80, 0x80, 0xff, 0xff, 0x04, 0xff, 0xff, 0x01,
    0xff, 0x02, 0xff, 0xff, 0x03, 0xff, 0xff, 0x07, 0xff, 0x03, 0x80, 0xff,
    0xff, 0x01, 0xff, 0x0b, 0xff, 0xff, 0x01, 0x02, 0xff, 0xff, 0x02, 0xff,
    0x02, 0xff, 0xff, 0x04, 0xff, 0x02, 0xff, 0x05, 0x80, 0x80, 0xff, 0xff,
    0x02, 0xff, 0x02, 0xff, 0xff, 0x04, 0xff, 0x02, 0xff, 0x07, 0x80, 0x80,
    0x80, 0xff, 0xff, 0x01, 0xff, 0x0b, 0xff, 0xff, 0x01, 0x01, 0xff, 0x03,
    0x80, 0x80, 0xff, 0x01, 0x80, 0xff, 0x01, 0x80, 0x80,
];

/// The tree hash of `PARTIAL_PUZZLE`.
pub const PARTIAL_PUZZLE_HASH: [u8; 32] = [
    0xe8, 0xb3, 0x8a, 0x9d, 0xa8, 0x9c, 0x52, 0x3f, 0x3a, 0x1e, 0x4b, 0x26,
    0x79, 0xd8, 0x93, 0xe1, 0xf5, 0x65, 0xd8, 0x00, 0xec, 0xd4, 0xe3, 0x7b,
    0x25, 0xef, 0x64, 0x4a, 0xe8, 0x4f, 0xe8, 0x68,
];

/// The tree hash of the standard settlement-payments puzzle.
pub const SETTLEMENT_PAYMENT_HASH: [u8; 32] = [
    0xcf, 0xbf, 0xde, 0xed, 0x5c, 0x4c, 0xa2, 0xde, 0x3d, 0x0b, 0xf5, 0x20,
    0xb9, 0xcb, 0x4b, 0xb7, 0x74, 0x3a, 0x35, 0x9b, 0xd2, 0xe6, 0xa1, 0x88,
    0xd1, 0x9c, 0xe7, 0xdf, 0xfc, 0x21, 0xd3, 0xe7,
];

/// The tree hash of the asset-maker puzzle used when the offered asset is the native currency.
pub const XCH_CAT_MAKER_PUZZLE_HASH: [u8; 32] = [
    0xa1, 0x28, 0x71, 0xfe, 0xe2, 0x10, 0xfb, 0x86, 0x19, 0x29, 0x1e, 0xae,
    0xa1, 0x94, 0x58, 0x1c, 0xbd, 0x25, 0x31, 0xe4, 0xb2, 0x37, 0x59, 0xd2,
    0x25, 0xf6, 0x80, 0x69, 0x23, 0xf6, 0x32, 0x22,
];

/// The tree hash of the token (CAT) layer.
pub const CAT_PUZZLE_HASH: [u8; 32] = [
    0x37, 0xbe, 0xf3, 0x60, 0xee, 0x85, 0x81, 0x33, 0xb6, 0x9d, 0x59, 0x5a,
    0x90, 0x6d, 0xc4, 0x5d, 0x01, 0xaf, 0x50, 0x37, 0x9d, 0xad, 0x51, 0x5e,
    0xb9, 0x51, 0x8a, 0xbb, 0x7c, 0x1d, 0x2a, 0x7a,
];

/// The tree hash of the revocation layer.
pub const REVOCATION_LAYER_HASH: [u8; 32] = [
    0x00, 0x84, 0x81, 0x15, 0x55, 0x4e, 0xa6, 0x74, 0x13, 0x1f, 0x89, 0xf3,
    0x11, 0x70, 0x7a, 0x95, 0x9a, 0xd3, 0xf4, 0x64, 0x74, 0x82, 0x64, 0x8f,
    0x3f, 0xe9, 0x1b, 0xa2, 0x89, 0x13, 0x1f, 0x51,
];

/// The tree hash of the one-of-many branch selector.
pub const P2_1_OF_N_HASH: [u8; 32] = [
    0x46, 0xb2, 0x9f, 0xd8, 0x7f, 0xbe, 0xb6, 0x73, 0x76, 0x00, 0xc4, 0x54,
    0x39, 0x31, 0x22, 0x2a, 0x6c, 0x1e, 0xd3, 0xdb, 0x6f, 0xa5, 0x60, 0x1a,
    0x3c, 0xa2, 0x84, 0xa9, 0xf4, 0xef, 0xe7, 0x80,
];

/// The tree hash of the asset-maker puzzle of a plain token.
pub const DEFAULT_CAT_MAKER_PUZZLE_HASH: [u8; 32] = [
    0xd6, 0x69, 0x3f, 0x7a, 0xac, 0xfe, 0xb7, 0xe6, 0x90, 0x1c, 0xd7, 0x1a,
    0x00, 0xf5, 0xe4, 0xb3, 0x18, 0xd7, 0x32, 0x34, 0xfb, 0xff, 0xd5, 0xb4,
    0xd8, 0x4d, 0xa2, 0xc1, 0x37, 0x1b, 0x31, 0x81,
];

/// The tree hash of the asset-maker puzzle of a revocable token.
pub const REVOCABLE_CAT_MAKER_PUZZLE_HASH: [u8; 32] = [
    0xf1, 0xb2, 0x80, 0xe9, 0x85, 0xd0, 0x67, 0xfa, 0x79, 0xa8, 0x6e, 0xca,
    0x60, 0x0d, 0x8f, 0xe9, 0xca, 0x62, 0xbf, 0x2e, 0xaa, 0x53, 0x46, 0xa6,
    0xdd, 0xaf, 0x23, 0xc7, 0x77, 0x3e, 0xe9, 0x55,
];

/// The byte that fills the locking-script hash of the zero-value hint coin.
pub const HINT_SENTINEL_BYTE: u8 = 1;

/// The locking-script hash of a token coin with asset `asset_id` around the
/// inner script with hash `inner`: the token layer curried with its own hash,
/// the asset id and the inner hash.
pub open spec fn cat_puzzle_hash_of(asset_id: Seq<u8>, inner: Seq<u8>) -> Seq<u8> {
    curry_hash(CAT_PUZZLE_HASH@, seq![atom_hash(CAT_PUZZLE_HASH@), atom_hash(asset_id), inner])
}

/// The hash of the revocation layer with override `hidden` around `inner`.
pub open spec fn revocation_puzzle_hash_of(hidden: Seq<u8>, inner: Seq<u8>) -> Seq<u8> {
    curry_hash(
        REVOCATION_LAYER_HASH@,
        seq![atom_hash(REVOCATION_LAYER_HASH@), atom_hash(hidden), atom_hash(inner)],
    )
}

/// The hash of the one-of-many branch selector committed to `root`.
pub open spec fn one_of_many_puzzle_hash_of(root: Seq<u8>) -> Seq<u8> {
    curry_hash(P2_1_OF_N_HASH@, seq![atom_hash(root)])
}

/// The hash of the asset-maker puzzle of a plain token, keyed by the asset id's tree hash.
pub open spec fn default_cat_maker_hash_of(tail_hash_hash: Seq<u8>) -> Seq<u8> {
    curry_hash(DEFAULT_CAT_MAKER_PUZZLE_HASH@, seq![atom_hash(CAT_PUZZLE_HASH@), atom_hash(tail_hash_hash)])
}

/// The hash of the asset-maker puzzle of a revocable token.
pub open spec fn revocable_cat_maker_hash_of(tail_hash_hash: Seq<u8>, hidden_hash_hash: Seq<u8>) -> Seq<u8> {
    curry_hash(
        REVOCABLE_CAT_MAKER_PUZZLE_HASH@,
        seq![
            pair_hash(atom_hash(CAT_PUZZLE_HASH@), pair_hash(atom_hash(REVOCATION_LAYER_HASH@), atom_hash(hidden_hash_hash))),
            atom_hash(tail_hash_hash),
        ],
    )
}

/// Relies on chia_puzzle_types::cat::CatArgs::curry_tree_hash: the token layer
/// curried with its hash, the asset id and the inner hash (passed as a hash).
#[verifier::external_body]
pub fn cat_puzzle_hash(asset_id: Bytes32, inner: Bytes32) -> (r: Bytes32)
    ensures
        r@ == cat_puzzle_hash_of(asset_id@, inner@),
{
    let asset_id = chia_protocol::Bytes32::new(asset_id.bytes);
    let inner = clvm_utils::TreeHash::new(inner.bytes);
    let r = chia_puzzle_types::cat::CatArgs::curry_tree_hash(asset_id, inner);
    Bytes32 { bytes: r.to_bytes() }
}

/// Relies on chia_sdk_types::puzzles::RevocationArgs hashed through
/// Mod::curry_tree_hash: the layer curried with its hash and both hashes as atoms.
#[verifier::external_body]
pub fn revocation_puzzle_hash(hidden: Bytes32, inner: Bytes32) -> (r: Bytes32)
    ensures
        r@ == revocation_puzzle_hash_of(hidden@, inner@),
{
    let hidden = chia_protocol::Bytes32::new(hidden.bytes);
    let inner = chia_protocol::Bytes32::new(inner.bytes);
    let r = chia_sdk_types::Mod::curry_tree_hash(&chia_sdk_types::puzzles::RevocationArgs::new(hidden, inner));
    Bytes32 { bytes: r.to_bytes() }
}

/// Relies on chia_sdk_types::puzzles::P2OneOfManyArgs hashed through
/// Mod::curry_tree_hash: the selector curried with the root as an atom.
#[verifier::external_body]
pub fn one_of_many_puzzle_hash(root: Bytes32) -> (r: Bytes32)
    ensures
        r@ == one_of_many_puzzle_hash_of(root@),
{
    let root = chia_protocol::Bytes32::new(root.bytes);
    let r = chia_sdk_types::Mod::curry_tree_hash(&chia_sdk_types::puzzles::P2OneOfManyArgs::new(root));
    Bytes32 { bytes: r.to_bytes() }
}

/// Relies on chia_sdk_types::puzzles::DefaultCatMakerArgs hashed through
/// Mod::curry_tree_hash: the maker curried with the token layer's hash and `tail_hash_hash`.
#[verifier::external_body]
pub fn default_cat_maker_hash(tail_hash_hash: Bytes32) -> (r: Bytes32)
    ensures
        r@ == default_cat_maker_hash_of(tail_hash_hash@),
{
    let tail = chia_protocol::Bytes32::new(tail_hash_hash.bytes);
    let r = chia_sdk_types::Mod::curry_tree_hash(&chia_sdk_types::puzzles::DefaultCatMakerArgs::new(tail));
    Bytes32 { bytes: r.to_bytes() }
}

/// Relies on chia_sdk_types::puzzles::RevocableCatMakerArgs hashed through
/// Mod::curry_tree_hash: the maker curried with its module structure (the
/// token and revocation layer hashes and `hidden_hash_hash`, as a list with a
/// tail) and `tail_hash_hash`.
#[verifier::external_body]
pub fn revocable_cat_maker_hash(tail_hash_hash: Bytes32, hidden_hash_hash: Bytes32) -> (r: Bytes32)
    ensures
        r@ == revocable_cat_maker_hash_of(tail_hash_hash@, hidden_hash_hash@),
{
    let tail = clvm_utils::TreeHash::new(tail_hash_hash.bytes);
    let hidden = clvm_utils::TreeHash::new(hidden_hash_hash.bytes);
    let r = chia_sdk_types::Mod::curry_tree_hash(&chia_sdk_types::puzzles::RevocableCatMakerArgs::new(tail, hidden));
    Bytes32 { bytes: r.to_bytes() }
}

/// The hash of a merkle leaf.
pub open spec fn merkle_leaf_hash(leaf: Seq<u8>) -> Seq<u8> {
    sha256_of(seq![1u8] + leaf)
}

/// The hash of an inner merkle node.
pub open spec fn merkle_node_hash(left: Seq<u8>, right: Seq<u8>) -> Seq<u8> {
    sha256_of(seq![2u8] + left + right)
}

/// An inclusion proof: bit `i` of `path` says the leaf's side at level `i`
/// (set: right), and `proof[i]` is the sibling hash at that level.
#[derive(Debug, Clone, PartialEq, Eq)]
pub struct MerkleProof {
    pub path: u32,
    pub proof: Vec<Bytes32>,
}

/// Relies on chia_sdk_types::MerkleTree::new(..).root() on two leaves: the
/// node hash of the two leaf hashes, in the given order.
#[verifier::external_body]
pub fn merkle_root(first: Bytes32, second: Bytes32) -> (r: Bytes32)
    ensures
        r@ == sha256_of(seq![2u8] + sha256_of(seq![1u8] + first@) + sha256_of(seq![1u8] + second@)),
{
    let leaves = [chia_protocol::Bytes32::new(first.bytes), chia_protocol::Bytes32::new(second.bytes)];
    Bytes32 { bytes: chia_sdk_types::MerkleTree::new(&leaves).root().to_bytes() }
}

/// Relies on chia_sdk_types::MerkleTree::new(..).proof(leaf) on two leaves:
/// the second leaf sits on the right (path 1) with the first leaf's hash as
/// sibling, the first on the left (path 0) with the second's; when both leaves
/// are equal the second one's proof is kept. Any other leaf has no proof.
#[verifier::external_body]
pub fn merkle_proof(first: Bytes32, second: Bytes32, leaf: Bytes32) -> (r: Option<MerkleProof>)
    ensures
        leaf@ == second@ ==> r.is_some() && r.unwrap().path == 1 && r.unwrap().proof@.len() == 1 && r.unwrap().proof@[0]@ == sha256_of(seq![1u8] + first@),
        leaf@ == first@ && leaf@ != second@ ==> r.is_some() && r.unwrap().path == 0 && r.unwrap().proof@.len() == 1 && r.unwrap().proof@[0]@ == sha256_of(seq![1u8] + second@),
        leaf@ != first@ && leaf@ != second@ ==> r.is_none(),
{
    let leaves = [chia_protocol::Bytes32::new(first.bytes), chia_protocol::Bytes32::new(second.bytes)];
    let proof = chia_sdk_types::MerkleTree::new(&leaves).proof(chia_protocol::Bytes32::new(leaf.bytes));
    proof.map(|p| MerkleProof {
        path: p.path,
        proof: p.proof.into_iter().map(|h| Bytes32 { bytes: h.to_bytes() }).collect(),
    })
}

} // verus!
