use crate::bytes::{lemma_bytes32_ext, Bytes32};
use crate::clvm::{lemma_ser_prefix_free, parse, ser, serialize};
use crate::error::{HintError, PartialOfferError};
use crate::info::{
    hint_t, inner_puzzle_hash_spec, lemma_hint_serializable, puzzle_hash_spec, PartialOfferHint,
    PartialOfferInfo,
};
use crate::puzzles::{revocation_puzzle_hash, revocation_puzzle_hash_of, HINT_SENTINEL_BYTE};
use crate::types::{aggregate_signatures, empty_signature, identity_signature, signature_sum_of, Coin, CoinSpend, LineageProof, SpendBundle};
use vstd::prelude::*;

verus! {

/// One offer coin bound to its terms, with the spends that must accompany it.
#[derive(Debug)]
pub struct PartialOffer {
    pub coin: Coin,
    pub info: PartialOfferInfo,
    pub spend_bundle: SpendBundle,
}

/// The locking-script hash of the zero-value coin that carries a hint.
pub open spec fn sentinel_hash() -> Seq<u8> {
    Seq::new(32, |_i: int| HINT_SENTINEL_BYTE)
}

pub open spec fn is_hint_spend(cs: CoinSpend) -> bool {
    cs.coin.puzzle_hash@ == sentinel_hash()
}

/// The hint-carrying spends of `s`, in order.
pub open spec fn hint_spends(s: Seq<CoinSpend>) -> Seq<CoinSpend>
    decreases s.len(),
{
    if s.len() == 0 {
        seq![]
    } else if is_hint_spend(s.last()) {
        hint_spends(s.drop_last()).push(s.last())
    } else {
        hint_spends(s.drop_last())
    }
}

/// The other spends of `s`, in order.
pub open spec fn other_spends(s: Seq<CoinSpend>) -> Seq<CoinSpend>
    decreases s.len(),
{
    if s.len() == 0 {
        seq![]
    } else if is_hint_spend(s.last()) {
        other_spends(s.drop_last())
    } else {
        other_spends(s.drop_last()).push(s.last())
    }
}

/// The terms that a hint payload describes, when it describes any.
pub open spec fn hint_info(payload: Seq<u8>) -> Option<PartialOfferInfo> {
    if exists|info: PartialOfferInfo| #[trigger] ser(hint_t(info)) == payload {
        Some(choose|info: PartialOfferInfo| #[trigger] ser(hint_t(info)) == payload)
    } else {
        None
    }
}

/// What reading an offer back from the spends `s` yields: its terms, the
/// parent id and amount of its coin, and the remaining spends.
pub open spec fn read_bundle(s: Seq<CoinSpend>) -> Result<
    (PartialOfferInfo, Bytes32, u64, Seq<CoinSpend>),
    PartialOfferError,
> {
    let found = hint_spends(s);
    if found.len() == 0 {
        Err(PartialOfferError::Hint(HintError::Missing))
    } else if found.len() > 1 {
        Err(PartialOfferError::Hint(HintError::Conflicting))
    } else {
        match hint_info(found[0].puzzle_reveal@) {
            None => Err(PartialOfferError::Hint(HintError::Ambiguous)),
            Some(info) => Ok((info, found[0].coin.parent_coin_info, found[0].coin.amount, other_spends(s))),
        }
    }
}

/// The spend that publishes `info` for the offer coin `coin`: a zero-value
/// companion with the sentinel hash, the serialized hint as reveal and an
/// empty solution.
pub open spec fn publishes(cs: CoinSpend, coin: Coin, info: PartialOfferInfo) -> bool {
    &&& cs.coin.parent_coin_info == coin.parent_coin_info
    &&& cs.coin.puzzle_hash@ == sentinel_hash()
    &&& cs.coin.amount == coin.amount
    &&& cs.puzzle_reveal@ == ser(hint_t(info))
    &&& cs.solution@ == seq![0x80u8]
}

/// Two terms with the same hint are the same terms.
pub proof fn lemma_hint_payload_unique(a: PartialOfferInfo, b: PartialOfferInfo)
    requires
        ser(hint_t(a)) == ser(hint_t(b)),
    ensures
        a == b,
{
    lemma_hint_serializable(a);
    lemma_hint_serializable(b);
    lemma_ser_prefix_free(hint_t(a), seq![], hint_t(b), seq![]);
    crate::info::lemma_hint_injective(a, b);
}

impl PartialOffer {
    /// The offer coin carries the full hash of its terms.
    pub open spec fn wf(&self) -> bool {
        self.coin.puzzle_hash@ == puzzle_hash_spec(self.info)
    }

    /// A fresh offer: the coin `(parent_coin_id, full hash of info, amount)`
    /// with no accompanying spends.
    pub fn new(parent_coin_id: Bytes32, amount: u64, info: PartialOfferInfo) -> (r: PartialOffer)
        ensures
            r.wf(),
            r.info == info,
            r.coin.parent_coin_info == parent_coin_id,
            r.coin.amount == amount,
            r.spend_bundle.coin_spends@.len() == 0,
            r.spend_bundle.aggregated_signature@ == identity_signature(),
    {
        PartialOffer {
            coin: Coin::new(parent_coin_id, info.puzzle_hash(), amount),
            info,
            spend_bundle: SpendBundle::new(Vec::new(), empty_signature()),
        }
    }

    /// Combines this offer's pending spends with `spend_bundle`'s, in that
    /// order, under the sum of both signatures.
    pub fn take(self, spend_bundle: SpendBundle) -> (r: Result<SpendBundle, PartialOfferError>)
        ensures
            signature_sum_of(self.spend_bundle.aggregated_signature@, spend_bundle.aggregated_signature@) is None
                ==> r == Err::<SpendBundle, PartialOfferError>(PartialOfferError::InvalidSignature),
            signature_sum_of(self.spend_bundle.aggregated_signature@, spend_bundle.aggregated_signature@) matches Some(sum)
                ==> (r matches Ok(b) && b.coin_spends@ == self.spend_bundle.coin_spends@ + spend_bundle.coin_spends@
                    && b.aggregated_signature@ == sum),
    {
        let signature = match aggregate_signatures(
            &self.spend_bundle.aggregated_signature,
            &spend_bundle.aggregated_signature,
        ) {
            Some(s) => s,
            None => {
                return Err(PartialOfferError::InvalidSignature);
            },
        };
        let mut spends = self.spend_bundle.coin_spends;
        let mut other = spend_bundle.coin_spends;
        spends.append(&mut other);
        Ok(SpendBundle::new(spends, signature))
    }

    /// Appends the spend that publishes the terms and hands back all spends.
    pub fn to_spend_bundle(self) -> (r: SpendBundle)
        ensures
            r.coin_spends@.len() == self.spend_bundle.coin_spends@.len() + 1,
            r.coin_spends@.drop_last() == self.spend_bundle.coin_spends@,
            publishes(r.coin_spends@.last(), self.coin, self.info),
            r.aggregated_signature == self.spend_bundle.aggregated_signature,
    {
        let hint = self.info.to_hint();
        let program = hint.to_program();
        proof {
            lemma_hint_serializable(self.info);
        }
        let reveal = serialize(&program);
        let mut solution: Vec<u8> = Vec::new();
        solution.push(0x80u8);
        assert(solution@ =~= seq![0x80u8]);
        let sentinel = Bytes32::filled(HINT_SENTINEL_BYTE);
        let coin = Coin::new(self.coin.parent_coin_info, sentinel, self.coin.amount);
        let mut bundle = self.spend_bundle;
        let ghost before = bundle.coin_spends@;
        bundle.coin_spends.push(CoinSpend::new(coin, reveal, solution));
        assert(bundle.coin_spends@.drop_last() =~= before);
        bundle
    }

    /// Reads the terms published in a hint payload.
    pub fn info_from_hint_bytes(payload: &Vec<u8>) -> (r: Option<PartialOfferInfo>)
        ensures
            r == hint_info(payload@),
    {
        let parsed = parse(payload);
        if parsed.is_none() {
            proof {
                assert forall|info: PartialOfferInfo| #[trigger] ser(hint_t(info)) != payload@ by {
                    lemma_hint_serializable(info);
                }
            }
            return None;
        }
        let program = parsed.unwrap();
        let hint = PartialOfferHint::from_program(&program);
        if hint.is_none() {
            proof {
                assert forall|info: PartialOfferInfo| #[trigger] ser(hint_t(info)) != payload@ by {
                    lemma_hint_serializable(info);
                }
            }
            return None;
        }
        let hint = hint.unwrap();
        let r = PartialOfferInfo::from_hint(&hint);
        proof {
            assert forall|info: PartialOfferInfo| #[trigger] ser(hint_t(info)) == payload@ implies r == Some(info) by {
                lemma_hint_serializable(info);
            }
            if let Some(info) = r {
                assert(hint_t(info) == program.tree());
                assert(ser(hint_t(info)) == payload@);
                let c = choose|i: PartialOfferInfo| #[trigger] ser(hint_t(i)) == payload@;
                lemma_hint_payload_unique(c, info);
            } else {
                assert forall|info: PartialOfferInfo| #[trigger] ser(hint_t(info)) != payload@ by {
                    lemma_hint_serializable(info);
                }
            }
        }
        r
    }

    /// Reads an offer back from a bundle: exactly one spend must carry the
    /// sentinel hash, and its reveal must be a hint. The coin is rebuilt from
    /// that spend's parent and amount and the hint's full hash; the other
    /// spends stay pending, in order.
    pub fn from_spend_bundle(spend_bundle: SpendBundle) -> (r: Result<PartialOffer, PartialOfferError>)
        ensures
            match read_bundle(spend_bundle.coin_spends@) {
                Ok((info, parent, amount, rest)) => r matches Ok(o) && o.wf() && o.info == info
                    && o.coin.parent_coin_info == parent && o.coin.amount == amount
                    && o.spend_bundle.coin_spends@ == rest
                    && o.spend_bundle.aggregated_signature == spend_bundle.aggregated_signature,
                Err(e) => r == Err::<PartialOffer, PartialOfferError>(e),
            },
    {
        let SpendBundle { coin_spends: mut pending, aggregated_signature: signature } = spend_bundle;
        let ghost all = pending@;
        let mut kept: Vec<CoinSpend> = Vec::new();
        let mut found: Option<CoinSpend> = None;
        let sentinel = Bytes32::filled(HINT_SENTINEL_BYTE);
        while pending.len() > 0
            invariant
                pending@ == all.subrange(all.len() - pending@.len(), all.len() as int),
                pending@.len() <= all.len(),
                kept@ == other_spends(all.subrange(0, all.len() - pending@.len())),
                hint_spends(all.subrange(0, all.len() - pending@.len())).len() <= 1,
                found matches Some(cs) ==> hint_spends(all.subrange(0, all.len() - pending@.len())) == seq![cs],
                found is None ==> hint_spends(all.subrange(0, all.len() - pending@.len())).len() == 0,
                sentinel@ == sentinel_hash(),
                all == spend_bundle.coin_spends@,
            decreases pending@.len(),
        {
            let ghost k = all.len() - pending@.len();
            let cs = pending.remove(0);
            proof {
                assert(all.subrange(0, k + 1).drop_last() =~= all.subrange(0, k));
                assert(all.subrange(0, k + 1).last() == cs);
                assert(pending@ =~= all.subrange(all.len() - pending@.len(), all.len() as int));
            }
            if cs.coin.puzzle_hash.same(&sentinel) {
                if found.is_some() {
                    proof {
                        lemma_hint_spends_grow(all, k + 1);
                        assert(hint_spends(all).len() > 1);
                        assert(read_bundle(all) == Err::<(PartialOfferInfo, Bytes32, u64, Seq<CoinSpend>), PartialOfferError>(PartialOfferError::Hint(HintError::Conflicting)));
                    }
                    return Err(PartialOfferError::Hint(HintError::Conflicting));
                }
                found = Some(cs);
            } else {
                kept.push(cs);
            }
        }
        assert(all.subrange(0, all.len() as int) =~= all);
        match found {
            None => Err(PartialOfferError::Hint(HintError::Missing)),
            Some(cs) => {
                match Self::info_from_hint_bytes(&cs.puzzle_reveal) {
                    None => Err(PartialOfferError::Hint(HintError::Ambiguous)),
                    Some(info) => {
                        let coin = Coin::new(cs.coin.parent_coin_info, info.puzzle_hash(), cs.coin.amount);
                        Ok(PartialOffer { coin, info, spend_bundle: SpendBundle::new(kept, signature) })
                    },
                }
            },
        }
    }

    /// The inner hash of this coin as the token layer sees it (under the
    /// revocation layer for a revocable token): what a child's lineage proof
    /// names as its parent's inner script.
    pub open spec fn lineage_inner_hash(&self) -> Seq<u8> {
        match self.info.offered_asset_info.hidden_puzzle_hash {
            Some(h) => revocation_puzzle_hash_of(h@, inner_puzzle_hash_spec(self.info)),
            None => inner_puzzle_hash_spec(self.info),
        }
    }

    /// `self` is what `parent` leaves behind holding `amount`.
    pub open spec fn is_child_of(&self, parent: PartialOffer, amount: u64) -> bool {
        &&& self.coin.parent_coin_info@ == parent.coin.id()
        &&& self.coin.puzzle_hash == parent.coin.puzzle_hash
        &&& self.coin.amount == amount
        &&& self.info == (PartialOfferInfo { lineage_proof: self.info.lineage_proof, ..parent.info })
        &&& parent.info.lineage_proof.is_none() ==> self.info.lineage_proof.is_none()
        &&& parent.info.lineage_proof.is_some() ==> (self.info.lineage_proof matches Some(lp)
            && lp.parent_parent_coin_info == parent.coin.parent_coin_info
            && lp.parent_inner_puzzle_hash@ == parent.lineage_inner_hash()
            && lp.parent_amount == parent.coin.amount)
        &&& self.spend_bundle.coin_spends@.len() == 0
    }

    /// The offer that a partial fill leaves behind: a coin of `child_amount`
    /// created by this coin under the same locking script, with the same
    /// terms but a lineage proof pointing at this coin (native-currency
    /// offers keep no lineage proof), and no pending spends.
    pub fn child(&self, child_amount: u64) -> (r: PartialOffer)
        ensures
            r.is_child_of(*self, child_amount),
            self.wf() ==> r.wf(),
    {
        let lineage_proof = match self.info.lineage_proof {
            None => None,
            Some(_) => {
                let inner = self.info.inner_puzzle_hash();
                let parent_inner_puzzle_hash = match self.info.offered_asset_info.hidden_puzzle_hash {
                    Some(hidden_puzzle_hash) => revocation_puzzle_hash(hidden_puzzle_hash, inner),
                    None => inner,
                };
                Some(LineageProof {
                    parent_parent_coin_info: self.coin.parent_coin_info,
                    parent_inner_puzzle_hash,
                    parent_amount: self.coin.amount,
                })
            },
        };
        PartialOffer {
            coin: Coin::new(self.coin.coin_id(), self.coin.puzzle_hash, child_amount),
            info: self.info.with_lineage_proof(lineage_proof),
            spend_bundle: SpendBundle::new(Vec::new(), empty_signature()),
        }
    }
}

proof fn lemma_hint_spends_grow(s: Seq<CoinSpend>, k: int)
    requires
        0 < k <= s.len(),
        is_hint_spend(s[k - 1]),
        hint_spends(s.subrange(0, k - 1)).len() == 1,
    ensures
        hint_spends(s).len() > 1,
{
    assert(s.subrange(0, k).drop_last() =~= s.subrange(0, k - 1));
    lemma_hint_spends_monotone(s, k);
}

proof fn lemma_hint_spends_monotone(s: Seq<CoinSpend>, k: int)
    requires
        0 <= k <= s.len(),
    ensures
        hint_spends(s.subrange(0, k)).len() <= hint_spends(s).len(),
    decreases s.len() - k,
{
    if k < s.len() {
        assert(s.subrange(0, k + 1).drop_last() =~= s.subrange(0, k));
        lemma_hint_spends_monotone(s, k + 1);
    } else {
        assert(s.subrange(0, k) =~= s);
    }
}

proof fn lemma_no_hint_spends(s: Seq<CoinSpend>)
    requires
        hint_spends(s).len() == 0,
    ensures
        other_spends(s) == s,
    decreases s.len(),
{
    if s.len() > 0 {
        if is_hint_spend(s.last()) {
            assert(hint_spends(s).len() > 0);
        }
        lemma_no_hint_spends(s.drop_last());
        assert(s.drop_last().push(s.last()) =~= s);
    }
}

/// Publishing an offer and reading it back gives the same terms, the same
/// coin and the same pending spends in the same order, provided none of the
/// pending spends is itself a hint spend.
pub proof fn lemma_bundle_round_trip(x: PartialOffer, spends: Seq<CoinSpend>)
    requires
        x.wf(),
        hint_spends(x.spend_bundle.coin_spends@).len() == 0,
        spends.len() == x.spend_bundle.coin_spends@.len() + 1,
        spends.drop_last() == x.spend_bundle.coin_spends@,
        publishes(spends.last(), x.coin, x.info),
    ensures
        read_bundle(spends) == Ok::<(PartialOfferInfo, Bytes32, u64, Seq<CoinSpend>), PartialOfferError>(
            (x.info, x.coin.parent_coin_info, x.coin.amount, x.spend_bundle.coin_spends@),
        ),
        forall|c: Coin| c.parent_coin_info == x.coin.parent_coin_info && c.amount == x.coin.amount
            && #[trigger] c.puzzle_hash@ == puzzle_hash_spec(x.info) ==> c == x.coin,
{
    let pending = x.spend_bundle.coin_spends@;
    let last = spends.last();
    assert(hint_spends(spends) == hint_spends(pending).push(last));
    assert(hint_spends(spends) =~= seq![last]);
    lemma_no_hint_spends(pending);
    assert(other_spends(spends) == pending);
    let payload = last.puzzle_reveal@;
    assert(ser(hint_t(x.info)) == payload);
    let c = choose|i: PartialOfferInfo| #[trigger] ser(hint_t(i)) == payload;
    lemma_hint_payload_unique(c, x.info);
    assert forall|c: Coin| c.parent_coin_info == x.coin.parent_coin_info && c.amount == x.coin.amount
        && #[trigger] c.puzzle_hash@ == puzzle_hash_spec(x.info) implies c == x.coin by {
        lemma_bytes32_ext(c.puzzle_hash, x.coin.puzzle_hash);
    }
}

/// A bundle without a hint spend is refused as missing its hint; one with
/// two or more is refused as conflicting.
pub proof fn lemma_hint_count_errors(s: Seq<CoinSpend>)
    ensures
        hint_spends(s).len() == 0 ==> read_bundle(s) == Err::<(PartialOfferInfo, Bytes32, u64, Seq<CoinSpend>), PartialOfferError>(
            PartialOfferError::Hint(HintError::Missing)),
        hint_spends(s).len() >= 2 ==> read_bundle(s) == Err::<(PartialOfferInfo, Bytes32, u64, Seq<CoinSpend>), PartialOfferError>(
            PartialOfferError::Hint(HintError::Conflicting)),
{
}

} // verus!
