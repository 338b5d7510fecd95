use crate::atom::{decode_u64, encode_u64, lemma_u64_atom_facts, u64_atom};
use crate::bytes::{lemma_bytes32_ext, Bytes32};
use crate::clvm::{serializable, Program, Tree};
use crate::hash::{
    atom_hash, curried_tree, curry, curry_hash, curry_tree_hash, hash_bytes32,
    lemma_curry_hash_matches, tree_hash, tree_hash_of, tree_hashes, views,
};
use crate::price::PartialPriceData;
use crate::puzzles::{
    cat_puzzle_hash, cat_puzzle_hash_of, default_cat_maker_hash, default_cat_maker_hash_of,
    merkle_root, one_of_many_puzzle_hash, one_of_many_puzzle_hash_of, revocable_cat_maker_hash,
    revocable_cat_maker_hash_of, revocation_puzzle_hash, revocation_puzzle_hash_of,
    PARTIAL_PUZZLE, PARTIAL_PUZZLE_HASH, SETTLEMENT_PAYMENT_HASH, XCH_CAT_MAKER_PUZZLE_HASH,
};
use crate::hash::sha256_of;
use crate::templates::PuzzleTemplates;
use crate::types::{LineageProof, PartialOfferAssetInfo};
use vstd::prelude::*;

verus! {

/// The on-chain self-description of an offer, carried by the zero-value hint coin.
#[derive(Debug)]
pub struct PartialOfferHint {
    pub lineage_proof: Option<LineageProof>,
    pub offered_asset_info: PartialOfferAssetInfo,
    pub requested_asset_info: PartialOfferAssetInfo,
    pub price_data: PartialPriceData,
    pub maker_puzzle_hash: Bytes32,
    pub inner_conditions: Program,
}

/// Condition opcode asserting that the spend happens before an absolute time.
pub const ASSERT_BEFORE_SECONDS_ABSOLUTE: u64 = 85;

/// Condition opcode reserving a transaction fee.
pub const RESERVE_FEE: u64 = 52;

/// The immutable terms of a partial offer.
#[derive(Debug, Clone, Copy, PartialEq, Eq)]
pub struct PartialOfferInfo {
    pub lineage_proof: Option<LineageProof>,
    pub offered_asset_info: PartialOfferAssetInfo,
    pub requested_asset_info: PartialOfferAssetInfo,
    pub maker_puzzle_hash: Bytes32,
    pub expiration: Option<u64>,
    pub required_fee: Option<u64>,
    pub price_data: PartialPriceData,
}

/// The asset-maker puzzle that the settlement template is curried with,
/// standing for the offered asset.
#[derive(Debug, Clone, Copy, PartialEq, Eq)]
pub enum CatMaker {
    Default { tail_hash_hash: Bytes32 },
    Revocable { tail_hash_hash: Bytes32, hidden_puzzle_hash_hash: Bytes32 },
    Xch,
}

// ---- the value model of hints and condition lists ----

pub open spec fn nil_t() -> Tree {
    Tree::Atom(seq![])
}

pub open spec fn cons_t(first: Tree, rest: Tree) -> Tree {
    Tree::Pair(Box::new(first), Box::new(rest))
}

pub open spec fn u64_t(n: u64) -> Tree {
    Tree::Atom(u64_atom(n))
}

pub open spec fn b32_t(b: Bytes32) -> Tree {
    Tree::Atom(b@)
}

pub open spec fn opt_b32_t(o: Option<Bytes32>) -> Tree {
    match o {
        None => nil_t(),
        Some(b) => b32_t(b),
    }
}

pub open spec fn lineage_t(o: Option<LineageProof>) -> Tree {
    match o {
        None => nil_t(),
        Some(lp) => cons_t(
            b32_t(lp.parent_parent_coin_info),
            cons_t(b32_t(lp.parent_inner_puzzle_hash), cons_t(u64_t(lp.parent_amount), nil_t())),
        ),
    }
}

pub open spec fn asset_t(a: PartialOfferAssetInfo) -> Tree {
    cons_t(opt_b32_t(a.asset_id), cons_t(opt_b32_t(a.hidden_puzzle_hash), nil_t()))
}

pub open spec fn price_t(p: PartialPriceData) -> Tree {
    cons_t(u64_t(p.price_precision), u64_t(p.precision))
}

pub open spec fn condition_t(opcode: u64, arg: u64) -> Tree {
    cons_t(u64_t(opcode), cons_t(u64_t(arg), nil_t()))
}

/// The condition list that expresses an optional expiry and an optional reserved fee.
pub open spec fn conditions_t(expiration: Option<u64>, required_fee: Option<u64>) -> Tree {
    match (expiration, required_fee) {
        (Some(e), Some(f)) => cons_t(
            condition_t(ASSERT_BEFORE_SECONDS_ABSOLUTE, e),
            cons_t(condition_t(RESERVE_FEE, f), nil_t()),
        ),
        (Some(e), None) => cons_t(condition_t(ASSERT_BEFORE_SECONDS_ABSOLUTE, e), nil_t()),
        (None, Some(f)) => cons_t(condition_t(RESERVE_FEE, f), nil_t()),
        (None, None) => nil_t(),
    }
}

/// The hint value published for an offer: lineage proof, both assets, price,
/// maker hash and condition list, as a list.
pub open spec fn hint_t(info: PartialOfferInfo) -> Tree {
    cons_t(
        lineage_t(info.lineage_proof),
        cons_t(
            asset_t(info.offered_asset_info),
            cons_t(
                asset_t(info.requested_asset_info),
                cons_t(
                    price_t(info.price_data),
                    cons_t(
                        b32_t(info.maker_puzzle_hash),
                        cons_t(conditions_t(info.expiration, info.required_fee), nil_t()),
                    ),
                ),
            ),
        ),
    )
}

// ---- the commitment hashes ----

/// The locking-script hash of `inner` wrapped for `asset`: unchanged for the
/// native currency, under the token layer for a token, with the revocation
/// layer in between for a revocable token.
pub open spec fn full_asset_puzzle_hash_spec(asset: PartialOfferAssetInfo, inner: Seq<u8>) -> Seq<u8> {
    match asset.asset_id {
        None => inner,
        Some(id) => match asset.hidden_puzzle_hash {
            None => cat_puzzle_hash_of(id@, inner),
            Some(h) => cat_puzzle_hash_of(id@, revocation_puzzle_hash_of(h@, inner)),
        },
    }
}

/// The hash of the asset-maker puzzle for `asset`.
pub open spec fn cat_maker_hash_spec(asset: PartialOfferAssetInfo) -> Seq<u8> {
    match asset.asset_id {
        None => XCH_CAT_MAKER_PUZZLE_HASH@,
        Some(id) => match asset.hidden_puzzle_hash {
            None => default_cat_maker_hash_of(atom_hash(id@)),
            Some(h) => revocable_cat_maker_hash_of(atom_hash(id@), atom_hash(h@)),
        },
    }
}

/// The core hash: the settlement template curried with the offered asset's
/// maker puzzle, the requested asset's settlement hash, the maker's receiver
/// hash, the condition list and the price.
pub open spec fn partial_puzzle_hash_spec(info: PartialOfferInfo) -> Seq<u8> {
    curry_hash(
        PARTIAL_PUZZLE_HASH@,
        seq![
            cat_maker_hash_spec(info.offered_asset_info),
            atom_hash(full_asset_puzzle_hash_spec(info.requested_asset_info, SETTLEMENT_PAYMENT_HASH@)),
            atom_hash(info.maker_puzzle_hash@),
            tree_hash(conditions_t(info.expiration, info.required_fee)),
            tree_hash(price_t(info.price_data)),
        ],
    )
}

/// The root of the two-leaf commitment over `(core, maker)`, in that order.
pub open spec fn two_leaf_root(core: Seq<u8>, maker: Seq<u8>) -> Seq<u8> {
    sha256_of(seq![2u8] + sha256_of(seq![1u8] + core) + sha256_of(seq![1u8] + maker))
}

/// The inner hash: the one-of-two branch selector over the core hash and the maker's hash.
pub open spec fn inner_puzzle_hash_spec(info: PartialOfferInfo) -> Seq<u8> {
    one_of_many_puzzle_hash_of(two_leaf_root(partial_puzzle_hash_spec(info), info.maker_puzzle_hash@))
}

/// The full hash: the offer coin's locking-script hash.
pub open spec fn puzzle_hash_spec(info: PartialOfferInfo) -> Seq<u8> {
    full_asset_puzzle_hash_spec(info.offered_asset_info, inner_puzzle_hash_spec(info))
}

// ---- builders of values ----

pub(crate) fn nil() -> (r: Program)
    ensures
        r.tree() == nil_t(),
        serializable(r.tree()),
{
    let r = Program::Atom(Vec::new());
    assert(r.tree() == Tree::Atom(Seq::<u8>::empty()));
    assert(Seq::<u8>::empty() =~= seq![]);
    r
}

pub(crate) fn cons(first: Program, rest: Program) -> (r: Program)
    ensures
        r.tree() == cons_t(first.tree(), rest.tree()),
        serializable(first.tree()) && serializable(rest.tree()) ==> serializable(r.tree()),
{
    Program::Pair(Box::new(first), Box::new(rest))
}

pub(crate) fn u64_p(n: u64) -> (r: Program)
    ensures
        r.tree() == u64_t(n),
        serializable(r.tree()),
{
    proof {
        lemma_u64_atom_facts(n);
    }
    Program::Atom(encode_u64(n))
}

pub(crate) fn b32_p(b: Bytes32) -> (r: Program)
    ensures
        r.tree() == b32_t(b),
        serializable(r.tree()),
{
    assert(b@.len() == 32);
    Program::Atom(b.to_vec())
}

fn opt_b32_p(o: Option<Bytes32>) -> (r: Program)
    ensures
        r.tree() == opt_b32_t(o),
{
    match o {
        None => nil(),
        Some(b) => b32_p(b),
    }
}

fn condition_p(opcode: u64, arg: u64) -> (r: Program)
    ensures
        r.tree() == condition_t(opcode, arg),
{
    cons(u64_p(opcode), cons(u64_p(arg), nil()))
}

pub(crate) fn lineage_p(o: Option<LineageProof>) -> (r: Program)
    ensures
        r.tree() == lineage_t(o),
        serializable(r.tree()),
{
    match o {
        None => nil(),
        Some(lp) => cons(
            b32_p(lp.parent_parent_coin_info),
            cons(b32_p(lp.parent_inner_puzzle_hash), cons(u64_p(lp.parent_amount), nil())),
        ),
    }
}

fn asset_p(a: PartialOfferAssetInfo) -> (r: Program)
    ensures
        r.tree() == asset_t(a),
{
    cons(opt_b32_p(a.asset_id), cons(opt_b32_p(a.hidden_puzzle_hash), nil()))
}

pub(crate) fn price_p(p: PartialPriceData) -> (r: Program)
    ensures
        r.tree() == price_t(p),
{
    cons(u64_p(p.price_precision), u64_p(p.precision))
}

// ---- readers of values: each accepts exactly the values its builder makes ----

fn read_u64(p: &Program) -> (r: Option<u64>)
    ensures
        r matches Some(n) ==> p.tree() == u64_t(n),
        forall|n: u64| p.tree() == #[trigger] u64_t(n) ==> r == Some(n),
{
    match p {
        Program::Atom(a) => decode_u64(a),
        Program::Pair(_, _) => None,
    }
}

fn read_b32(p: &Program) -> (r: Option<Bytes32>)
    ensures
        r matches Some(b) ==> p.tree() == b32_t(b),
        forall|b: Bytes32| p.tree() == #[trigger] b32_t(b) ==> r == Some(b),
{
    match p {
        Program::Atom(a) => {
            if a.len() == 32 {
                let b = Bytes32::from_seq(a);
                proof {
                    assert forall|c: Bytes32| p.tree() == #[trigger] b32_t(c) implies Some(b) == Some(c) by {
                        lemma_bytes32_ext(b, c);
                    }
                }
                Some(b)
            } else {
                proof {
                    assert forall|c: Bytes32| p.tree() == #[trigger] b32_t(c) implies false by {
                        assert(c@.len() == 32);
                    }
                }
                None
            }
        },
        Program::Pair(_, _) => None,
    }
}

fn is_nil(p: &Program) -> (r: bool)
    ensures
        r == (p.tree() == nil_t()),
{
    match p {
        Program::Atom(a) => {
            if a.len() == 0 {
                assert(a@ =~= seq![]);
                true
            } else {
                false
            }
        },
        Program::Pair(_, _) => false,
    }
}

fn read_opt_b32(p: &Program) -> (r: Option<Option<Bytes32>>)
    ensures
        r matches Some(o) ==> p.tree() == opt_b32_t(o),
        forall|o: Option<Bytes32>| p.tree() == #[trigger] opt_b32_t(o) ==> r == Some(o),
{
    if is_nil(p) {
        proof {
            assert forall|o: Option<Bytes32>| p.tree() == #[trigger] opt_b32_t(o) implies Some(None::<Bytes32>) == Some(o) by {
                if let Some(b) = o {
                    assert(b@.len() == 32);
                }
            }
        }
        Some(None)
    } else {
        match read_b32(p) {
            Some(b) => {
                proof {
                    assert forall|o: Option<Bytes32>| p.tree() == #[trigger] opt_b32_t(o) implies Some(Some(b)) == Some(o) by {
                        if let Some(c) = o {
                            assert(p.tree() == b32_t(c));
                        }
                    }
                }
                Some(Some(b))
            },
            None => {
                proof {
                    assert forall|o: Option<Bytes32>| p.tree() == #[trigger] opt_b32_t(o) implies false by {
                        if let Some(c) = o {
                            assert(p.tree() == b32_t(c));
                        }
                    }
                }
                None
            },
        }
    }
}

fn read_lineage(p: &Program) -> (r: Option<Option<LineageProof>>)
    ensures
        r matches Some(o) ==> p.tree() == lineage_t(o),
        forall|o: Option<LineageProof>| p.tree() == #[trigger] lineage_t(o) ==> r == Some(o),
{
    if is_nil(p) {
        return Some(None);
    }
    if let Program::Pair(a, r1) = p {
        if let Program::Pair(b, r2) = &**r1 {
            if let Program::Pair(c, r3) = &**r2 {
                let pa = read_b32(a);
                let pb = read_b32(b);
                let pc = read_u64(c);
                if pa.is_some() && pb.is_some() && pc.is_some() && is_nil(r3) {
                    assert(p.tree() == cons_t(a.tree(), r1.tree()));
                    assert(r1.tree() == cons_t(b.tree(), r2.tree()));
                    assert(r2.tree() == cons_t(c.tree(), r3.tree()));
                    let lp = LineageProof {
                        parent_parent_coin_info: pa.unwrap(),
                        parent_inner_puzzle_hash: pb.unwrap(),
                        parent_amount: pc.unwrap(),
                    };
                    return Some(Some(lp));
                }
            }
        }
    }
    None
}

fn read_asset(p: &Program) -> (r: Option<PartialOfferAssetInfo>)
    ensures
        r matches Some(a) ==> p.tree() == asset_t(a),
        forall|a: PartialOfferAssetInfo| p.tree() == #[trigger] asset_t(a) ==> r == Some(a),
{
    if let Program::Pair(a, r1) = p {
        if let Program::Pair(b, r2) = &**r1 {
            let pa = read_opt_b32(a);
            let pb = read_opt_b32(b);
            if pa.is_some() && pb.is_some() && is_nil(r2) {
                assert(p.tree() == cons_t(a.tree(), r1.tree()));
                assert(r1.tree() == cons_t(b.tree(), r2.tree()));
                return Some(PartialOfferAssetInfo { asset_id: pa.unwrap(), hidden_puzzle_hash: pb.unwrap() });
            }
        }
    }
    None
}

fn read_price(p: &Program) -> (r: Option<PartialPriceData>)
    ensures
        r matches Some(x) ==> p.tree() == price_t(x),
        forall|x: PartialPriceData| p.tree() == #[trigger] price_t(x) ==> r == Some(x),
{
    if let Program::Pair(a, b) = p {
        let pa = read_u64(a);
        let pb = read_u64(b);
        if pa.is_some() && pb.is_some() {
            return Some(PartialPriceData { price_precision: pa.unwrap(), precision: pb.unwrap() });
        }
    }
    None
}

/// Reads one condition `(opcode arg)`.
fn read_condition(p: &Program) -> (r: Option<(u64, u64)>)
    ensures
        r matches Some((op, arg)) ==> p.tree() == condition_t(op, arg),
        forall|op: u64, arg: u64| p.tree() == #[trigger] condition_t(op, arg) ==> r == Some((op, arg)),
{
    if let Program::Pair(a, r1) = p {
        if let Program::Pair(b, r2) = &**r1 {
            let pa = read_u64(a);
            let pb = read_u64(b);
            if pa.is_some() && pb.is_some() && is_nil(r2) {
                assert(p.tree() == cons_t(a.tree(), r1.tree()));
                assert(r1.tree() == cons_t(b.tree(), r2.tree()));
                return Some((pa.unwrap(), pb.unwrap()));
            }
        }
    }
    None
}

/// Reads a condition list back into `(expiration, required_fee)`. Only the
/// four lists that `conditions_t` makes are accepted; any other shape, order
/// or opcode is refused rather than guessed at.
fn read_conditions(p: &Program) -> (r: Option<(Option<u64>, Option<u64>)>)
    ensures
        r matches Some((e, f)) ==> p.tree() == conditions_t(e, f),
        forall|e: Option<u64>, f: Option<u64>| p.tree() == #[trigger] conditions_t(e, f) ==> r == Some((e, f)),
{
    if is_nil(p) {
        return Some((None, None));
    }
    if let Program::Pair(c1, r1) = p {
        let first = read_condition(c1);
        if first.is_none() {
            return None;
        }
        let (op1, arg1) = first.unwrap();
        if is_nil(r1) {
            if op1 == ASSERT_BEFORE_SECONDS_ABSOLUTE {
                return Some((Some(arg1), None));
            } else if op1 == RESERVE_FEE {
                return Some((None, Some(arg1)));
            }
            return None;
        }
        if let Program::Pair(c2, r2) = &**r1 {
            let second = read_condition(c2);
            if second.is_none() || !is_nil(r2) {
                return None;
            }
            let (op2, arg2) = second.unwrap();
            if op1 == ASSERT_BEFORE_SECONDS_ABSOLUTE && op2 == RESERVE_FEE {
                return Some((Some(arg1), Some(arg2)));
            }
        }
    }
    None
}

/// The value of a hint: its fields as a list, in declaration order.
pub open spec fn hint_tree(h: PartialOfferHint) -> Tree {
    cons_t(
        lineage_t(h.lineage_proof),
        cons_t(
            asset_t(h.offered_asset_info),
            cons_t(
                asset_t(h.requested_asset_info),
                cons_t(
                    price_t(h.price_data),
                    cons_t(b32_t(h.maker_puzzle_hash), cons_t(h.inner_conditions.tree(), nil_t())),
                ),
            ),
        ),
    )
}

/// The hint fields that restate the offer terms unchanged.
pub open spec fn hint_matches(h: PartialOfferHint, info: PartialOfferInfo) -> bool {
    &&& h.lineage_proof == info.lineage_proof
    &&& h.offered_asset_info == info.offered_asset_info
    &&& h.requested_asset_info == info.requested_asset_info
    &&& h.price_data == info.price_data
    &&& h.maker_puzzle_hash == info.maker_puzzle_hash
}

pub proof fn lemma_hint_serializable(info: PartialOfferInfo)
    ensures
        serializable(hint_t(info)),
{
    reveal_with_fuel(serializable, 8);
    lemma_u64_atom_facts(info.price_data.price_precision);
    lemma_u64_atom_facts(info.price_data.precision);
    lemma_u64_atom_facts(ASSERT_BEFORE_SECONDS_ABSOLUTE);
    lemma_u64_atom_facts(RESERVE_FEE);
    if let Some(lp) = info.lineage_proof {
        lemma_u64_atom_facts(lp.parent_amount);
    }
    if let Some(e) = info.expiration {
        lemma_u64_atom_facts(e);
    }
    if let Some(f) = info.required_fee {
        lemma_u64_atom_facts(f);
    }
    if let Some(b) = info.offered_asset_info.asset_id {
        assert(b@.len() == 32);
    }
    if let Some(b) = info.offered_asset_info.hidden_puzzle_hash {
        assert(b@.len() == 32);
    }
    if let Some(b) = info.requested_asset_info.asset_id {
        assert(b@.len() == 32);
    }
    if let Some(b) = info.requested_asset_info.hidden_puzzle_hash {
        assert(b@.len() == 32);
    }
    assert(info.maker_puzzle_hash@.len() == 32);
    assert(serializable(lineage_t(info.lineage_proof)));
    assert(serializable(asset_t(info.offered_asset_info)));
    assert(serializable(asset_t(info.requested_asset_info)));
    assert(serializable(price_t(info.price_data)));
    assert(serializable(conditions_t(info.expiration, info.required_fee)));
}

impl PartialOfferHint {
    /// The hint as a CLVM value.
    pub fn to_program(&self) -> (r: Program)
        ensures
            r.tree() == hint_tree(*self),
    {
        cons(
            lineage_p(self.lineage_proof),
            cons(
                asset_p(self.offered_asset_info),
                cons(
                    asset_p(self.requested_asset_info),
                    cons(
                        price_p(self.price_data),
                        cons(b32_p(self.maker_puzzle_hash), cons(self.inner_conditions.duplicate(), nil())),
                    ),
                ),
            ),
        )
    }

    /// Reads a hint from a CLVM value; the condition list is taken as it stands.
    pub fn from_program(p: &Program) -> (r: Option<PartialOfferHint>)
        ensures
            r matches Some(h) ==> hint_tree(h) == p.tree(),
            forall|info: PartialOfferInfo| p.tree() == #[trigger] hint_t(info) ==> (r matches Some(h)
                && hint_matches(h, info) && h.inner_conditions.tree() == conditions_t(info.expiration, info.required_fee)),
    {
        if let Program::Pair(lineage_v, after_lineage) = p {
            if let Program::Pair(offered_v, after_offered) = &**after_lineage {
                if let Program::Pair(requested_v, after_requested) = &**after_offered {
                    if let Program::Pair(price_v, after_price) = &**after_requested {
                        if let Program::Pair(maker_v, after_maker) = &**after_price {
                            if let Program::Pair(conditions_v, after_conditions) = &**after_maker {
                                let lineage = read_lineage(lineage_v);
                                let offered = read_asset(offered_v);
                                let requested = read_asset(requested_v);
                                let price = read_price(price_v);
                                let maker = read_b32(maker_v);
                                if lineage.is_some() && offered.is_some() && requested.is_some()
                                    && price.is_some() && maker.is_some() && is_nil(after_conditions) {
                                    assert(p.tree() == cons_t(lineage_v.tree(), after_lineage.tree()));
                                    assert(after_lineage.tree() == cons_t(offered_v.tree(), after_offered.tree()));
                                    assert(after_offered.tree() == cons_t(requested_v.tree(), after_requested.tree()));
                                    assert(after_requested.tree() == cons_t(price_v.tree(), after_price.tree()));
                                    assert(after_price.tree() == cons_t(maker_v.tree(), after_maker.tree()));
                                    assert(after_maker.tree() == cons_t(conditions_v.tree(), after_conditions.tree()));
                                    let h = PartialOfferHint {
                                        lineage_proof: lineage.unwrap(),
                                        offered_asset_info: offered.unwrap(),
                                        requested_asset_info: requested.unwrap(),
                                        price_data: price.unwrap(),
                                        maker_puzzle_hash: maker.unwrap(),
                                        inner_conditions: conditions_v.duplicate(),
                                    };
                                    return Some(h);
                                }
                            }
                        }
                    }
                }
            }
        }
        None
    }
}

impl PartialOfferInfo {
    pub fn new(
        lineage_proof: Option<LineageProof>,
        offered_asset_info: PartialOfferAssetInfo,
        requested_asset_info: PartialOfferAssetInfo,
        maker_puzzle_hash: Bytes32,
        expiration: Option<u64>,
        required_fee: Option<u64>,
        price_data: PartialPriceData,
    ) -> (r: Self)
        ensures
            r == (PartialOfferInfo {
                lineage_proof,
                offered_asset_info,
                requested_asset_info,
                maker_puzzle_hash,
                expiration,
                required_fee,
                price_data,
            }),
    {
        PartialOfferInfo {
            lineage_proof,
            offered_asset_info,
            requested_asset_info,
            maker_puzzle_hash,
            expiration,
            required_fee,
            price_data,
        }
    }

    /// The same terms with another lineage proof.
    pub fn with_lineage_proof(self, lineage_proof: Option<LineageProof>) -> (r: Self)
        ensures
            r == (PartialOfferInfo { lineage_proof, ..self }),
    {
        PartialOfferInfo { lineage_proof, ..self }
    }

    /// The condition list that the accept branch adds: the expiry assertion
    /// first, then the fee reservation, each only when set.
    pub fn inner_conditions(&self) -> (r: Program)
        ensures
            r.tree() == conditions_t(self.expiration, self.required_fee),
    {
        match (self.expiration, self.required_fee) {
            (Some(e), Some(f)) => cons(
                condition_p(ASSERT_BEFORE_SECONDS_ABSOLUTE, e),
                cons(condition_p(RESERVE_FEE, f), nil()),
            ),
            (Some(e), None) => cons(condition_p(ASSERT_BEFORE_SECONDS_ABSOLUTE, e), nil()),
            (None, Some(f)) => cons(condition_p(RESERVE_FEE, f), nil()),
            (None, None) => nil(),
        }
    }

    /// Projects the terms onto the hint, deriving the condition list on the fly.
    pub fn to_hint(&self) -> (r: PartialOfferHint)
        ensures
            hint_matches(r, *self),
            r.inner_conditions.tree() == conditions_t(self.expiration, self.required_fee),
            hint_tree(r) == hint_t(*self),
    {
        PartialOfferHint {
            lineage_proof: self.lineage_proof,
            offered_asset_info: self.offered_asset_info,
            requested_asset_info: self.requested_asset_info,
            price_data: self.price_data,
            maker_puzzle_hash: self.maker_puzzle_hash,
            inner_conditions: self.inner_conditions(),
        }
    }

    /// Rebuilds the terms from a hint. The condition list must be one of the
    /// lists that `inner_conditions` makes; any other list gives `None`.
    pub fn from_hint(hint: &PartialOfferHint) -> (r: Option<Self>)
        ensures
            r matches Some(info) ==> hint_matches(*hint, info)
                && hint.inner_conditions.tree() == conditions_t(info.expiration, info.required_fee),
            forall|e: Option<u64>, f: Option<u64>|
                hint.inner_conditions.tree() == #[trigger] conditions_t(e, f) ==> (r matches Some(info)
                    && hint_matches(*hint, info) && info.expiration == e && info.required_fee == f),
    {
        match read_conditions(&hint.inner_conditions) {
            Some((expiration, required_fee)) => Some(PartialOfferInfo {
                lineage_proof: hint.lineage_proof,
                offered_asset_info: hint.offered_asset_info,
                requested_asset_info: hint.requested_asset_info,
                maker_puzzle_hash: hint.maker_puzzle_hash,
                expiration,
                required_fee,
                price_data: hint.price_data,
            }),
            None => None,
        }
    }
}

impl CatMaker {
    /// The hash of this asset-maker puzzle.
    pub open spec fn hash_spec(&self) -> Seq<u8> {
        match self {
            CatMaker::Default { tail_hash_hash } => default_cat_maker_hash_of(tail_hash_hash@),
            CatMaker::Revocable { tail_hash_hash, hidden_puzzle_hash_hash } =>
                revocable_cat_maker_hash_of(tail_hash_hash@, hidden_puzzle_hash_hash@),
            CatMaker::Xch => XCH_CAT_MAKER_PUZZLE_HASH@,
        }
    }

    pub fn curry_tree_hash(&self) -> (r: Bytes32)
        ensures
            r@ == self.hash_spec(),
    {
        match self {
            CatMaker::Default { tail_hash_hash } => default_cat_maker_hash(*tail_hash_hash),
            CatMaker::Revocable { tail_hash_hash, hidden_puzzle_hash_hash } =>
                revocable_cat_maker_hash(*tail_hash_hash, *hidden_puzzle_hash_hash),
            CatMaker::Xch => Bytes32::new(XCH_CAT_MAKER_PUZZLE_HASH),
        }
    }
}

/// The arguments curried into the settlement template; the same values give
/// both the hash of the accept branch and its materialized form.
#[derive(Debug)]
pub struct PartialPuzzleArgs {
    /// The hash of the offered asset's maker puzzle.
    pub cat_maker: Bytes32,
    /// Where the requested asset must be paid: its settlement locking-script hash.
    pub other_asset_offer_mod: Bytes32,
    pub receiver_puzzle_hash: Bytes32,
    pub inner_conditions: Program,
    pub price_data: PartialPriceData,
}

impl PartialPuzzleArgs {
    /// The argument hashes, in currying order.
    pub open spec fn arg_hashes(&self) -> Seq<Seq<u8>> {
        seq![
            self.cat_maker@,
            atom_hash(self.other_asset_offer_mod@),
            atom_hash(self.receiver_puzzle_hash@),
            tree_hash(self.inner_conditions.tree()),
            tree_hash(price_t(self.price_data)),
        ]
    }

    /// The serialized settlement template.
    pub fn mod_reveal() -> (r: Vec<u8>)
        ensures
            r@ == PARTIAL_PUZZLE@,
    {
        let mut r: Vec<u8> = Vec::new();
        let mut i: usize = 0;
        while i < 429
            invariant
                0 <= i <= 429,
                r@ == PARTIAL_PUZZLE@.subrange(0, i as int),
            decreases 429 - i,
        {
            r.push(PARTIAL_PUZZLE[i]);
            i = i + 1;
            assert(r@ =~= PARTIAL_PUZZLE@.subrange(0, i as int));
        }
        assert(r@ =~= PARTIAL_PUZZLE@);
        r
    }

    /// The tree hash of the settlement template.
    pub fn mod_hash() -> (r: Bytes32)
        ensures
            r@ == PARTIAL_PUZZLE_HASH@,
    {
        Bytes32::new(PARTIAL_PUZZLE_HASH)
    }

    /// The argument values curried into the template, with `cat_maker` as the
    /// offered asset's maker puzzle.
    pub open spec fn arg_trees(&self, cat_maker: Tree) -> Seq<Tree> {
        seq![
            cat_maker,
            b32_t(self.other_asset_offer_mod),
            b32_t(self.receiver_puzzle_hash),
            self.inner_conditions.tree(),
            price_t(self.price_data),
        ]
    }

    /// The accept branch built in full: the settlement template curried with
    /// these arguments, `cat_maker_puzzle` standing for the maker puzzle. When
    /// that puzzle has the hash in `cat_maker`, the result hashes to what
    /// `curry_tree_hash` computes.
    pub fn curry_puzzle(&self, templates: &PuzzleTemplates, cat_maker_puzzle: Program) -> (r: Program)
        requires
            templates.wf(),
        ensures
            r.tree() == curried_tree(templates.partial.tree(), self.arg_trees(cat_maker_puzzle.tree())),
            tree_hash(cat_maker_puzzle.tree()) == self.cat_maker@
                ==> tree_hash(r.tree()) == curry_hash(PARTIAL_PUZZLE_HASH@, self.arg_hashes()),
    {
        let ghost cat_tree = cat_maker_puzzle.tree();
        let mut args: Vec<Program> = Vec::new();
        args.push(cat_maker_puzzle);
        args.push(b32_p(self.other_asset_offer_mod));
        args.push(b32_p(self.receiver_puzzle_hash));
        args.push(self.inner_conditions.duplicate());
        args.push(price_p(self.price_data));
        let p = curry(templates.partial.duplicate(), args);
        proof {
            let trees = self.arg_trees(cat_tree);
            assert(args@.map_values(|a: Program| a.tree()) =~= trees);
            lemma_curry_hash_matches(templates.partial.tree(), trees);
            if tree_hash(cat_tree) == self.cat_maker@ {
                assert(tree_hashes(trees) =~= self.arg_hashes());
            }
        }
        p
    }

    /// The hash of the template curried with these arguments, computed
    /// without materializing the curried script.
    pub fn curry_tree_hash(&self) -> (r: Bytes32)
        ensures
            r@ == curry_hash(PARTIAL_PUZZLE_HASH@, self.arg_hashes()),
    {
        let mut args: Vec<Bytes32> = Vec::new();
        args.push(self.cat_maker);
        args.push(hash_bytes32(self.other_asset_offer_mod));
        args.push(hash_bytes32(self.receiver_puzzle_hash));
        args.push(tree_hash_of(&self.inner_conditions));
        args.push(tree_hash_of(&price_p(self.price_data)));
        assert(views(args@) =~= self.arg_hashes());
        curry_tree_hash(Self::mod_hash(), &args)
    }
}

impl PartialOfferInfo {
    /// The asset-maker puzzle standing for `asset_info`.
    pub fn to_cat_maker(asset_info: PartialOfferAssetInfo) -> (r: CatMaker)
        ensures
            r.hash_spec() == cat_maker_hash_spec(asset_info),
            asset_info.asset_id.is_none() <==> r is Xch,
            asset_info.asset_id.is_some() && asset_info.hidden_puzzle_hash.is_some() <==> r is Revocable,
    {
        match asset_info.asset_id {
            Some(asset_id) => match asset_info.hidden_puzzle_hash {
                Some(hidden_puzzle_hash) => CatMaker::Revocable {
                    tail_hash_hash: hash_bytes32(asset_id),
                    hidden_puzzle_hash_hash: hash_bytes32(hidden_puzzle_hash),
                },
                None => CatMaker::Default { tail_hash_hash: hash_bytes32(asset_id) },
            },
            None => CatMaker::Xch,
        }
    }

    /// The locking-script hash of `inner_puzzle_hash` wrapped for `asset_info`.
    pub fn full_asset_puzzle_hash(asset_info: PartialOfferAssetInfo, inner_puzzle_hash: Bytes32) -> (r: Bytes32)
        ensures
            r@ == full_asset_puzzle_hash_spec(asset_info, inner_puzzle_hash@),
    {
        match asset_info.asset_id {
            Some(asset_id) => match asset_info.hidden_puzzle_hash {
                Some(hidden_puzzle_hash) => {
                    let revocable = revocation_puzzle_hash(hidden_puzzle_hash, inner_puzzle_hash);
                    cat_puzzle_hash(asset_id, revocable)
                },
                None => cat_puzzle_hash(asset_id, inner_puzzle_hash),
            },
            None => inner_puzzle_hash,
        }
    }

    /// The curried arguments of the accept branch.
    pub fn to_args(&self) -> (r: PartialPuzzleArgs)
        ensures
            r.cat_maker@ == cat_maker_hash_spec(self.offered_asset_info),
            r.other_asset_offer_mod@ == full_asset_puzzle_hash_spec(self.requested_asset_info, SETTLEMENT_PAYMENT_HASH@),
            r.receiver_puzzle_hash == self.maker_puzzle_hash,
            r.inner_conditions.tree() == conditions_t(self.expiration, self.required_fee),
            r.price_data == self.price_data,
    {
        let cat_maker = Self::to_cat_maker(self.offered_asset_info).curry_tree_hash();
        let other_asset_offer_mod = Self::full_asset_puzzle_hash(
            self.requested_asset_info,
            Bytes32::new(SETTLEMENT_PAYMENT_HASH),
        );
        PartialPuzzleArgs {
            cat_maker,
            other_asset_offer_mod,
            receiver_puzzle_hash: self.maker_puzzle_hash,
            inner_conditions: self.inner_conditions(),
            price_data: self.price_data,
        }
    }

    /// The core hash (accept branch).
    pub fn partial_puzzle_hash(&self) -> (r: Bytes32)
        ensures
            r@ == partial_puzzle_hash_spec(*self),
    {
        let args = self.to_args();
        let r = args.curry_tree_hash();
        assert(args.arg_hashes() =~= seq![
            cat_maker_hash_spec(self.offered_asset_info),
            atom_hash(full_asset_puzzle_hash_spec(self.requested_asset_info, SETTLEMENT_PAYMENT_HASH@)),
            atom_hash(self.maker_puzzle_hash@),
            tree_hash(conditions_t(self.expiration, self.required_fee)),
            tree_hash(price_t(self.price_data)),
        ]);
        r
    }

    /// The inner hash: the two-leaf selector over `(core hash, maker hash)`.
    pub fn inner_puzzle_hash(&self) -> (r: Bytes32)
        ensures
            r@ == inner_puzzle_hash_spec(*self),
    {
        let core = self.partial_puzzle_hash();
        let root = merkle_root(core, self.maker_puzzle_hash);
        one_of_many_puzzle_hash(root)
    }

    /// The full hash: the offer coin's locking-script hash.
    pub fn puzzle_hash(&self) -> (r: Bytes32)
        ensures
            r@ == puzzle_hash_spec(*self),
    {
        Self::full_asset_puzzle_hash(self.offered_asset_info, self.inner_puzzle_hash())
    }
}

proof fn lemma_u64_t_injective(a: u64, b: u64)
    requires
        u64_t(a) == u64_t(b),
    ensures
        a == b,
{
    lemma_u64_atom_facts(a);
    lemma_u64_atom_facts(b);
}

proof fn lemma_opt_b32_t_injective(a: Option<Bytes32>, b: Option<Bytes32>)
    requires
        opt_b32_t(a) == opt_b32_t(b),
    ensures
        a == b,
{
    match (a, b) {
        (Some(x), Some(y)) => lemma_bytes32_ext(x, y),
        (Some(x), None) => assert(x@.len() == 32),
        (None, Some(y)) => assert(y@.len() == 32),
        (None, None) => {},
    }
}

proof fn lemma_conditions_t_injective(e1: Option<u64>, f1: Option<u64>, e2: Option<u64>, f2: Option<u64>)
    requires
        conditions_t(e1, f1) == conditions_t(e2, f2),
    ensures
        e1 == e2,
        f1 == f2,
{
    lemma_u64_atom_facts(ASSERT_BEFORE_SECONDS_ABSOLUTE);
    lemma_u64_atom_facts(RESERVE_FEE);
    if let Some(x) = e1 {
        if let Some(y) = e2 {
            lemma_u64_t_injective(x, y);
        }
    }
    if let Some(x) = f1 {
        if let Some(y) = f2 {
            lemma_u64_t_injective(x, y);
        }
    }
}

/// Distinct terms have distinct hints.
pub proof fn lemma_hint_injective(a: PartialOfferInfo, b: PartialOfferInfo)
    requires
        hint_t(a) == hint_t(b),
    ensures
        a == b,
{
    lemma_opt_b32_t_injective(a.offered_asset_info.asset_id, b.offered_asset_info.asset_id);
    lemma_opt_b32_t_injective(a.offered_asset_info.hidden_puzzle_hash, b.offered_asset_info.hidden_puzzle_hash);
    lemma_opt_b32_t_injective(a.requested_asset_info.asset_id, b.requested_asset_info.asset_id);
    lemma_opt_b32_t_injective(a.requested_asset_info.hidden_puzzle_hash, b.requested_asset_info.hidden_puzzle_hash);
    lemma_u64_t_injective(a.price_data.price_precision, b.price_data.price_precision);
    lemma_u64_t_injective(a.price_data.precision, b.price_data.precision);
    lemma_bytes32_ext(a.maker_puzzle_hash, b.maker_puzzle_hash);
    lemma_conditions_t_injective(a.expiration, a.required_fee, b.expiration, b.required_fee);
    match (a.lineage_proof, b.lineage_proof) {
        (Some(x), Some(y)) => {
            lemma_bytes32_ext(x.parent_parent_coin_info, y.parent_parent_coin_info);
            lemma_bytes32_ext(x.parent_inner_puzzle_hash, y.parent_inner_puzzle_hash);
            lemma_u64_t_injective(x.parent_amount, y.parent_amount);
        },
        _ => {},
    }
}

} // verus!
