use crate::bytes::Bytes32;
use crate::error::PartialOfferError;
use crate::hash::views;
use crate::info::{
    full_asset_puzzle_hash_spec, partial_puzzle_hash_spec, two_leaf_root, PartialOfferInfo,
};
use crate::offer::PartialOffer;
use crate::price::{
    quote_fits, quote_value, reverse_quote_fits, reverse_quote_value, PartialPriceData,
};
use crate::puzzles::{
    merkle_leaf_hash, merkle_node_hash, merkle_proof, merkle_root, MerkleProof,
    SETTLEMENT_PAYMENT_HASH,
};
use crate::clvm::ser;
use crate::templates::PuzzleTemplates;
use crate::types::{aggregate_signatures, signature_sum_of, Coin, SpendBundle};
use vstd::prelude::*;

verus! {

/// A payment that the counterparty's spend must announce identically: the
/// nonce binds it to this offer coin.
#[derive(Debug, Clone, PartialEq, Eq)]
pub struct NotarizedPayment {
    pub nonce: Bytes32,
    pub puzzle_hash: Bytes32,
    pub amount: u64,
    pub memos: Vec<Bytes32>,
}

/// A taker's counter-offer: the native-currency coins and the token coins
/// (tagged with their asset id) it puts up, each in the taker's order; the
/// payments it requests, tagged with their asset (`None` for the native
/// currency); and its own spends with their signature.
#[derive(Debug, Clone, PartialEq, Eq)]
pub struct CounterOffer {
    pub offered_xch: Vec<Coin>,
    pub offered_cats: Vec<(Bytes32, Coin)>,
    pub requested_payments: Vec<(Option<Bytes32>, NotarizedPayment)>,
    pub spend_bundle: SpendBundle,
}

/// Whether the counter-offer requests a payment in the offered asset, as it
/// must when that asset is a token.
pub open spec fn requests_offered_asset(info: PartialOfferInfo, offer: CounterOffer) -> bool {
    match info.offered_asset_info.asset_id {
        None => true,
        Some(id) => exists|i: int| 0 <= i < offer.requested_payments@.len()
            && tagged_with((#[trigger] offer.requested_payments@[i]).0, id),
    }
}

/// Whether `tag` names the token `id`.
pub open spec fn tagged_with(tag: Option<Bytes32>, id: Bytes32) -> bool {
    match tag {
        Some(a) => a@ == id@,
        None => false,
    }
}

fn find_requested(payments: &Vec<(Option<Bytes32>, NotarizedPayment)>, id: Bytes32) -> (r: bool)
    ensures
        r == exists|i: int| 0 <= i < payments@.len() && tagged_with((#[trigger] payments@[i]).0, id),
{
    let mut i: usize = 0;
    while i < payments.len()
        invariant
            0 <= i <= payments@.len(),
            forall|j: int| 0 <= j < i ==> !tagged_with((#[trigger] payments@[j]).0, id),
        decreases payments@.len() - i,
    {
        match &payments[i].0 {
            Some(a) => {
                if a.same(&id) {
                    return true;
                }
            },
            None => {},
        }
        i = i + 1;
    }
    false
}

/// Everything a fill settles: the taker's coin that pays the maker, the
/// taker's fee coin when a fee is reserved, the amounts on both sides, the
/// coin that pays the taker, the maker's payment, the offer left behind
/// after a partial fill, and the bundle that joins this side's pending
/// spends, the maker's spend of the offer coin and the counter-offer's spends.
#[derive(Debug)]
pub struct AcceptedOffer {
    pub taker_coin: Coin,
    pub fee_coin: Option<Coin>,
    pub other_asset_amount: u64,
    pub output_amount: u64,
    pub settlement_coin: Coin,
    pub notarized_payment: NotarizedPayment,
    pub child: Option<PartialOffer>,
    pub spend_bundle: SpendBundle,
}

/// Which leaf of the two-leaf commitment a spend reveals.
#[derive(Debug, Clone, Copy, PartialEq, Eq, Structural)]
pub enum SpendBranch {
    /// The accept branch: the settlement template's core hash.
    Fill,
    /// The maker's own branch.
    ClawBack,
}

/// What a spend of the offer coin reveals of the branch selector.
#[derive(Debug)]
pub struct BranchReveal {
    pub branch: SpendBranch,
    pub leaf: Bytes32,
    pub merkle_root: Bytes32,
    pub proof: MerkleProof,
}

/// The root that a merkle inclusion proof leads to from the hash `h`.
pub open spec fn proof_root(h: Seq<u8>, path: nat, proof: Seq<Seq<u8>>) -> Seq<u8>
    decreases proof.len(),
{
    if proof.len() == 0 {
        h
    } else {
        let up = if path % 2 == 1 {
            merkle_node_hash(proof[0], h)
        } else {
            merkle_node_hash(h, proof[0])
        };
        proof_root(up, path / 2, proof.drop_first())
    }
}

/// Whether `proof` shows that `leaf` is committed to by `root`.
pub open spec fn proves(root: Seq<u8>, leaf: Seq<u8>, proof: MerkleProof) -> bool {
    proof_root(merkle_leaf_hash(leaf), proof.path as nat, views(proof.proof@)) == root
}

/// The leaf that `branch` reveals for the terms `info`.
pub open spec fn branch_leaf(info: PartialOfferInfo, branch: SpendBranch) -> Seq<u8> {
    match branch {
        SpendBranch::Fill => partial_puzzle_hash_spec(info),
        SpendBranch::ClawBack => info.maker_puzzle_hash@,
    }
}

/// In the two-leaf commitment over `(core, maker)`, the core leaf is proved
/// on the left and the maker leaf on the right, against the same root.
pub proof fn lemma_two_leaf_proofs(core: Seq<u8>, maker: Seq<u8>)
    ensures
        proof_root(merkle_leaf_hash(maker), 1, seq![merkle_leaf_hash(core)]) == two_leaf_root(core, maker),
        proof_root(merkle_leaf_hash(core), 0, seq![merkle_leaf_hash(maker)]) == two_leaf_root(core, maker),
{
    reveal_with_fuel(proof_root, 2);
    assert(seq![merkle_leaf_hash(core)].drop_first() =~= Seq::<Seq<u8>>::empty());
    assert(seq![merkle_leaf_hash(maker)].drop_first() =~= Seq::<Seq<u8>>::empty());
}

/// What filling the offer with `given` units of the requested asset settles.
pub open spec fn taker_terms(info: PartialOfferInfo, offer: CounterOffer) -> Result<(Coin, Option<Coin>, u64), PartialOfferError> {
    match info.requested_asset_info.asset_id {
        Some(id) => {
            if exists|i: int| 0 <= i < offer.offered_cats@.len() && #[trigger] offer.offered_cats@[i].0@ == id@ {
                let i = choose|i: int| 0 <= i < offer.offered_cats@.len() && #[trigger] offer.offered_cats@[i].0@ == id@
                    && forall|j: int| 0 <= j < i ==> offer.offered_cats@[j].0@ != id@;
                let cat = offer.offered_cats@[i].1;
                if info.required_fee.unwrap_or(0) > 0 {
                    if offer.offered_xch@.len() == 0 {
                        Err(PartialOfferError::IncompatibleAssetInfo)
                    } else {
                        Ok((cat, Some(offer.offered_xch@[0]), cat.amount))
                    }
                } else {
                    Ok((cat, None, cat.amount))
                }
            } else {
                Err(PartialOfferError::IncompatibleAssetInfo)
            }
        },
        None => {
            if offer.offered_xch@.len() == 0 {
                Err(PartialOfferError::IncompatibleAssetInfo)
            } else {
                let given = offer.offered_xch@[0];
                let fee = info.required_fee.unwrap_or(0);
                if given.amount < fee {
                    Err(PartialOfferError::IncompatibleAssetInfo)
                } else {
                    Ok((given, None, (given.amount - fee) as u64))
                }
            }
        },
    }
}

fn find_cat(cats: &Vec<(Bytes32, Coin)>, id: Bytes32) -> (r: Option<usize>)
    ensures
        r matches Some(i) ==> i < cats@.len() && cats@[i as int].0@ == id@
            && forall|j: int| 0 <= j < i ==> cats@[j].0@ != id@,
        r is None ==> forall|j: int| 0 <= j < cats@.len() ==> cats@[j].0@ != id@,
{
    let mut i: usize = 0;
    while i < cats.len()
        invariant
            0 <= i <= cats@.len(),
            forall|j: int| 0 <= j < i ==> cats@[j].0@ != id@,
        decreases cats@.len() - i,
    {
        if cats[i].0.same(&id) {
            return Some(i);
        }
        i = i + 1;
    }
    None
}

impl PartialOffer {
    /// Offered amount owed for `asked_asset_amount` units of the requested asset.
    pub fn quote(asked_asset_amount: u64, price_data: PartialPriceData) -> (r: Result<u64, PartialOfferError>)
        requires
            price_data.valid(),
        ensures
            quote_fits(asked_asset_amount as int, price_data) ==> r == Ok::<u64, PartialOfferError>(
                quote_value(asked_asset_amount as int, price_data) as u64),
            !quote_fits(asked_asset_amount as int, price_data) ==> r == Err::<u64, PartialOfferError>(
                PartialOfferError::ArithmeticOverflow),
    {
        match asked_asset_amount.checked_mul(price_data.price_precision) {
            Some(product) => Ok(product / price_data.precision),
            None => Err(PartialOfferError::ArithmeticOverflow),
        }
    }

    /// Requested amount that `offered_asset_amount` units of the offered asset are worth.
    pub fn reverse_quote(offered_asset_amount: u64, price_data: PartialPriceData) -> (r: Result<u64, PartialOfferError>)
        requires
            price_data.valid(),
        ensures
            reverse_quote_fits(offered_asset_amount as int, price_data) ==> r == Ok::<u64, PartialOfferError>(
                reverse_quote_value(offered_asset_amount as int, price_data) as u64),
            !reverse_quote_fits(offered_asset_amount as int, price_data) ==> r == Err::<u64, PartialOfferError>(
                PartialOfferError::ArithmeticOverflow),
    {
        match offered_asset_amount.checked_mul(price_data.precision) {
            Some(product) => Ok(product / price_data.price_precision),
            None => Err(PartialOfferError::ArithmeticOverflow),
        }
    }

    /// The maker's payment for `amount` units of the requested asset, with
    /// this coin's parent id as nonce and the maker's hash as memo.
    pub fn notatized_payment(&self, amount: u64) -> (r: NotarizedPayment)
        ensures
            r.nonce == self.coin.parent_coin_info,
            r.puzzle_hash == self.info.maker_puzzle_hash,
            r.amount == amount,
            r.memos@ == seq![self.info.maker_puzzle_hash],
    {
        let mut memos: Vec<Bytes32> = Vec::new();
        memos.push(self.info.maker_puzzle_hash);
        NotarizedPayment {
            nonce: self.coin.parent_coin_info,
            puzzle_hash: self.info.maker_puzzle_hash,
            amount,
            memos,
        }
    }

    /// The leaf, root and proof that a spend down `branch` reveals.
    pub fn reveal_branch(&self, branch: SpendBranch) -> (r: Result<BranchReveal, PartialOfferError>)
        ensures
            r matches Ok(b) && b.branch == branch && b.leaf@ == branch_leaf(self.info, branch)
                && b.merkle_root@ == two_leaf_root(partial_puzzle_hash_spec(self.info), self.info.maker_puzzle_hash@)
                && proves(b.merkle_root@, b.leaf@, b.proof),
            branch == SpendBranch::ClawBack ==> (r matches Ok(b) && b.proof.path == 1 && b.proof.proof@.len() == 1
                && b.proof.proof@[0]@ == merkle_leaf_hash(partial_puzzle_hash_spec(self.info))),
            branch == SpendBranch::Fill && partial_puzzle_hash_spec(self.info) == self.info.maker_puzzle_hash@
                ==> (r matches Ok(b) && b.proof.path == 1 && b.proof.proof@.len() == 1
                    && b.proof.proof@[0]@ == merkle_leaf_hash(partial_puzzle_hash_spec(self.info))),
            branch == SpendBranch::Fill && partial_puzzle_hash_spec(self.info) != self.info.maker_puzzle_hash@
                ==> (r matches Ok(b) && b.proof.path == 0 && b.proof.proof@.len() == 1
                    && b.proof.proof@[0]@ == merkle_leaf_hash(self.info.maker_puzzle_hash@)),
    {
        let core = self.info.partial_puzzle_hash();
        let maker = self.info.maker_puzzle_hash;
        let root = merkle_root(core, maker);
        let leaf = match branch {
            SpendBranch::Fill => core,
            SpendBranch::ClawBack => maker,
        };
        match merkle_proof(core, maker, leaf) {
            Some(proof) => {
                proof {
                    lemma_two_leaf_proofs(core@, maker@);
                    assert(views(proof.proof@) =~= seq![proof.proof@[0]@]);
                    if leaf@ == maker@ {
                        assert(seq![proof.proof@[0]@] == seq![merkle_leaf_hash(core@)]);
                    } else {
                        assert(seq![proof.proof@[0]@] == seq![merkle_leaf_hash(maker@)]);
                    }
                }
                Ok(BranchReveal { branch, leaf, merkle_root: root, proof })
            },
            None => Err(PartialOfferError::InvalidMerkleProof),
        }
    }

    /// The maker's reclaim: reveals the maker leaf instead of the core leaf.
    pub fn claw_back(&self) -> (r: Result<BranchReveal, PartialOfferError>)
        ensures
            r matches Ok(b) && b.branch == SpendBranch::ClawBack && b.leaf == self.info.maker_puzzle_hash
                && b.merkle_root@ == two_leaf_root(partial_puzzle_hash_spec(self.info), self.info.maker_puzzle_hash@)
                && proves(b.merkle_root@, b.leaf@, b.proof)
                && b.proof.path == 1 && b.proof.proof@.len() == 1
                && b.proof.proof@[0]@ == merkle_leaf_hash(partial_puzzle_hash_spec(self.info)),
    {
        let r = self.reveal_branch(SpendBranch::ClawBack);
        proof {
            if r is Ok {
                crate::bytes::lemma_bytes32_ext(r->Ok_0.leaf, self.info.maker_puzzle_hash);
            }
        }
        r
    }
}

impl PartialOffer {
    /// Fills the offer from a counter-offer. The taker's coin is the first
    /// token coin of the requested asset, or the first native coin when the
    /// native currency is requested; a reserved fee needs a native fee coin
    /// beside a token coin, and is netted out of a native coin. The quote of
    /// the net amount is paid to the taker; a quote equal to the coin's
    /// amount ends the offer, a smaller one leaves a child offer holding the
    /// rest, a larger one is refused.
    pub fn accept_offer(self, templates: &PuzzleTemplates, offer: CounterOffer) -> (r: Result<AcceptedOffer, PartialOfferError>)
        requires
            self.info.price_data.valid(),
            templates.wf(),
        ensures
            match taker_terms(self.info, offer) {
                Err(e) => r == Err::<AcceptedOffer, PartialOfferError>(e),
                Ok((taker, fee_coin, given)) => {
                    let q = quote_value(given as int, self.info.price_data);
                    let sum = signature_sum_of(self.spend_bundle.aggregated_signature@, offer.spend_bundle.aggregated_signature@);
                    &&& !requests_offered_asset(self.info, offer) ==> r == Err::<AcceptedOffer, PartialOfferError>(
                        PartialOfferError::IncompatibleAssetInfo)
                    &&& requests_offered_asset(self.info, offer) && !quote_fits(given as int, self.info.price_data) ==> r == Err::<AcceptedOffer, PartialOfferError>(
                        PartialOfferError::ArithmeticOverflow)
                    &&& requests_offered_asset(self.info, offer) && quote_fits(given as int, self.info.price_data)
                        && q > self.coin.amount ==> r == Err::<AcceptedOffer, PartialOfferError>(
                        PartialOfferError::OverFill)
                    &&& requests_offered_asset(self.info, offer) && quote_fits(given as int, self.info.price_data)
                        && q <= self.coin.amount && sum is None ==> r == Err::<AcceptedOffer, PartialOfferError>(
                        PartialOfferError::InvalidSignature)
                    &&& requests_offered_asset(self.info, offer) && quote_fits(given as int, self.info.price_data)
                        && q <= self.coin.amount && sum is Some ==> (r matches Ok(a)
                        && a.taker_coin == taker && a.fee_coin == fee_coin
                        && a.other_asset_amount == given && a.output_amount == q
                        && a.settlement_coin.parent_coin_info@ == self.coin.id()
                        && a.settlement_coin.puzzle_hash@ == full_asset_puzzle_hash_spec(
                            self.info.offered_asset_info, SETTLEMENT_PAYMENT_HASH@)
                        && a.settlement_coin.amount == q
                        && a.notarized_payment.nonce == self.coin.parent_coin_info
                        && a.notarized_payment.puzzle_hash == self.info.maker_puzzle_hash
                        && a.notarized_payment.amount == given
                        && (a.child is None <==> q == self.coin.amount)
                        && (a.child matches Some(c) ==> c.is_child_of(self, (self.coin.amount - q) as u64))
                        && a.spend_bundle.coin_spends@.len() == self.spend_bundle.coin_spends@.len() + 1
                            + offer.spend_bundle.coin_spends@.len()
                        && a.spend_bundle.coin_spends@.subrange(0, self.spend_bundle.coin_spends@.len() as int)
                            == self.spend_bundle.coin_spends@
                        && a.spend_bundle.coin_spends@.subrange((self.spend_bundle.coin_spends@.len() + 1) as int,
                            a.spend_bundle.coin_spends@.len() as int) == offer.spend_bundle.coin_spends@
                        && a.spend_bundle.coin_spends@[self.spend_bundle.coin_spends@.len() as int].coin == self.coin
                        && a.spend_bundle.coin_spends@[self.spend_bundle.coin_spends@.len() as int].puzzle_reveal@
                            == ser(self.offer_puzzle(*templates))
                        && a.spend_bundle.coin_spends@[self.spend_bundle.coin_spends@.len() as int].solution@
                            == ser(self.fill_solution(*templates, given,
                            Some((Bytes32 { bytes: SETTLEMENT_PAYMENT_HASH }, q as u64))))
                        && a.spend_bundle.aggregated_signature@ == sum.unwrap())
                },
            },
    {
        let info = self.info;
        let (taker_coin, fee_coin, other_asset_amount) = match info.requested_asset_info.asset_id {
            Some(id) => {
                match find_cat(&offer.offered_cats, id) {
                    None => {
                        return Err(PartialOfferError::IncompatibleAssetInfo);
                    },
                    Some(i) => {
                        proof {
                            let cats = offer.offered_cats@;
                            let c = choose|k: int| 0 <= k < cats.len() && #[trigger] cats[k].0@ == id@
                                && forall|j: int| 0 <= j < k ==> cats[j].0@ != id@;
                            assert(0 <= i < cats.len() && cats[i as int].0@ == id@
                                && forall|j: int| 0 <= j < i ==> cats[j].0@ != id@);
                            if c < i {
                                assert(cats[c].0@ != id@);
                            } else if c > i {
                                assert(cats[i as int].0@ != id@);
                            }
                        }
                        let cat = offer.offered_cats[i].1;
                        let needs_fee = match info.required_fee {
                            Some(f) => f > 0,
                            None => false,
                        };
                        if needs_fee {
                            if offer.offered_xch.len() == 0 {
                                return Err(PartialOfferError::IncompatibleAssetInfo);
                            }
                            (cat, Some(offer.offered_xch[0]), cat.amount)
                        } else {
                            (cat, None, cat.amount)
                        }
                    },
                }
            },
            None => {
                if offer.offered_xch.len() == 0 {
                    return Err(PartialOfferError::IncompatibleAssetInfo);
                }
                let given = offer.offered_xch[0];
                let fee = match info.required_fee {
                    Some(f) => f,
                    None => 0,
                };
                if given.amount < fee {
                    return Err(PartialOfferError::IncompatibleAssetInfo);
                }
                (given, None, given.amount - fee)
            },
        };
        match info.offered_asset_info.asset_id {
            Some(id) => {
                if !find_requested(&offer.requested_payments, id) {
                    return Err(PartialOfferError::IncompatibleAssetInfo);
                }
            },
            None => {},
        }
        let output_amount = match Self::quote(other_asset_amount, info.price_data) {
            Ok(q) => q,
            Err(e) => {
                return Err(e);
            },
        };
        if output_amount > self.coin.amount {
            return Err(PartialOfferError::OverFill);
        }
        let settlement_puzzle_hash = PartialOfferInfo::full_asset_puzzle_hash(
            info.offered_asset_info,
            Bytes32::new(SETTLEMENT_PAYMENT_HASH),
        );
        let settlement_coin = Coin::new(self.coin.coin_id(), settlement_puzzle_hash, output_amount);
        let notarized_payment = self.notatized_payment(other_asset_amount);
        let child = if output_amount < self.coin.amount {
            Some(self.child(self.coin.amount - output_amount))
        } else {
            None
        };
        let signature = match aggregate_signatures(
            &self.spend_bundle.aggregated_signature,
            &offer.spend_bundle.aggregated_signature,
        ) {
            Some(sig) => sig,
            None => {
                return Err(PartialOfferError::InvalidSignature);
            },
        };
        let (maker_spend, _) = match self.fill_spend(
            templates,
            other_asset_amount,
            Some((Bytes32::new(SETTLEMENT_PAYMENT_HASH), output_amount)),
        ) {
            Ok(pair) => pair,
            Err(e) => {
                return Err(e);
            },
        };
        let mut spends = self.spend_bundle.coin_spends;
        let ghost mine = spends@;
        spends.push(maker_spend);
        let ghost with_maker = spends@;
        let mut theirs = offer.spend_bundle.coin_spends;
        spends.append(&mut theirs);
        assert(spends@.subrange(0, mine.len() as int) =~= mine);
        assert(spends@.subrange((mine.len() + 1) as int, spends@.len() as int) =~= offer.spend_bundle.coin_spends@);
        assert(spends@[mine.len() as int] == with_maker[mine.len() as int]);
        Ok(AcceptedOffer {
            taker_coin,
            fee_coin,
            other_asset_amount,
            output_amount,
            settlement_coin,
            notarized_payment,
            child,
            spend_bundle: SpendBundle::new(spends, signature),
        })
    }
}

} // verus!
