use crate::atom::u64_atom;
use crate::bytes::Bytes32;
use crate::hash::sha256_of;
use vstd::prelude::*;

verus! {

/// One side of the trade: the native currency when `asset_id` is `None`,
/// otherwise the token with that asset id, revocable when
/// `hidden_puzzle_hash` is present.
#[derive(Debug, Clone, Copy, PartialEq, Eq)]
pub struct PartialOfferAssetInfo {
    pub asset_id: Option<Bytes32>,
    pub hidden_puzzle_hash: Option<Bytes32>,
}

impl PartialOfferAssetInfo {
    pub fn new(asset_id: Option<Bytes32>, hidden_puzzle_hash: Option<Bytes32>) -> (r: Self)
        ensures
            r.asset_id == asset_id,
            r.hidden_puzzle_hash == hidden_puzzle_hash,
    {
        PartialOfferAssetInfo { asset_id, hidden_puzzle_hash }
    }

    /// The native currency.
    pub fn xch() -> (r: Self)
        ensures
            r.asset_id.is_none(),
            r.hidden_puzzle_hash.is_none(),
    {
        PartialOfferAssetInfo { asset_id: None, hidden_puzzle_hash: None }
    }

    /// The token `asset_id`, revocable when `hidden_puzzle_hash` is given.
    pub fn cat(asset_id: Bytes32, hidden_puzzle_hash: Option<Bytes32>) -> (r: Self)
        ensures
            r.asset_id == Some(asset_id),
            r.hidden_puzzle_hash == hidden_puzzle_hash,
    {
        PartialOfferAssetInfo { asset_id: Some(asset_id), hidden_puzzle_hash }
    }
}

/// What spending a token coin needs to know of its parent.
#[derive(Debug, Clone, Copy, PartialEq, Eq)]
pub struct LineageProof {
    pub parent_parent_coin_info: Bytes32,
    pub parent_inner_puzzle_hash: Bytes32,
    pub parent_amount: u64,
}

/// A ledger coin: its parent's id, its locking-script hash and its amount.
#[derive(Debug, Clone, Copy, PartialEq, Eq)]
pub struct Coin {
    pub parent_coin_info: Bytes32,
    pub puzzle_hash: Bytes32,
    pub amount: u64,
}

/// The id of the coin `(parent, puzzle_hash, amount)`.
pub open spec fn coin_id_spec(parent: Seq<u8>, puzzle_hash: Seq<u8>, amount: u64) -> Seq<u8> {
    sha256_of(parent + puzzle_hash + u64_atom(amount))
}

/// Relies on chia_protocol::Coin::coin_id: SHA-256 over the parent id, the
/// locking-script hash and the amount's minimal signed big-endian bytes.
#[verifier::external_body]
fn coin_id_hash(parent: Bytes32, puzzle_hash: Bytes32, amount: u64) -> (r: Bytes32)
    ensures
        r@ == sha256_of(parent@ + puzzle_hash@ + u64_atom(amount)),
{
    let parent = chia_protocol::Bytes32::new(parent.bytes);
    let puzzle_hash = chia_protocol::Bytes32::new(puzzle_hash.bytes);
    Bytes32 { bytes: chia_protocol::Coin::new(parent, puzzle_hash, amount).coin_id().to_bytes() }
}

impl Coin {
    pub fn new(parent_coin_info: Bytes32, puzzle_hash: Bytes32, amount: u64) -> (r: Coin)
        ensures
            r.parent_coin_info == parent_coin_info,
            r.puzzle_hash == puzzle_hash,
            r.amount == amount,
    {
        Coin { parent_coin_info, puzzle_hash, amount }
    }

    pub open spec fn id(&self) -> Seq<u8> {
        coin_id_spec(self.parent_coin_info@, self.puzzle_hash@, self.amount)
    }

    pub fn coin_id(&self) -> (r: Bytes32)
        ensures
            r@ == self.id(),
    {
        coin_id_hash(self.parent_coin_info, self.puzzle_hash, self.amount)
    }
}

/// A spend of one coin: the revealed locking script and its solution, both serialized.
#[derive(Debug, Clone, PartialEq, Eq)]
pub struct CoinSpend {
    pub coin: Coin,
    pub puzzle_reveal: Vec<u8>,
    pub solution: Vec<u8>,
}

impl CoinSpend {
    pub fn new(coin: Coin, puzzle_reveal: Vec<u8>, solution: Vec<u8>) -> (r: CoinSpend)
        ensures
            r.coin == coin,
            r.puzzle_reveal@ == puzzle_reveal@,
            r.solution@ == solution@,
    {
        CoinSpend { coin, puzzle_reveal, solution }
    }
}

/// A set of spends with their aggregated signature.
#[derive(Debug, Clone, PartialEq, Eq)]
pub struct SpendBundle {
    pub coin_spends: Vec<CoinSpend>,
    pub aggregated_signature: [u8; 96],
}

impl SpendBundle {
    pub fn new(coin_spends: Vec<CoinSpend>, aggregated_signature: [u8; 96]) -> (r: SpendBundle)
        ensures
            r.coin_spends@ == coin_spends@,
            r.aggregated_signature == aggregated_signature,
    {
        SpendBundle { coin_spends, aggregated_signature }
    }
}

/// The aggregate of two serialized signatures, when both are valid points.
pub uninterp spec fn signature_sum_of(a: Seq<u8>, b: Seq<u8>) -> Option<Seq<u8>>;

/// Relies on chia_bls::Signature: reading both points (refusing invalid
/// ones) and adding them.
#[verifier::external_body]
pub(crate) fn aggregate_signatures(a: &[u8; 96], b: &[u8; 96]) -> (r: Option<[u8; 96]>)
    ensures
        r.is_some() == signature_sum_of(a@, b@).is_some(),
        r.is_some() ==> r.unwrap()@ == signature_sum_of(a@, b@).unwrap(),
{
    let a = chia_bls::Signature::from_bytes(a).ok()?;
    let b = chia_bls::Signature::from_bytes(b).ok()?;
    Some((a + &b).to_bytes())
}

/// The serialized signature that signs nothing (the identity point).
pub fn empty_signature() -> (r: [u8; 96])
    ensures
        r@ == identity_signature(),
{
    let mut r: [u8; 96] = [0u8; 96];
    r[0] = 0xc0;
    assert(r@ =~= identity_signature());
    r
}

/// The compressed identity point: the flag byte 0xc0, then zeros.
pub open spec fn identity_signature() -> Seq<u8> {
    Seq::new(96, |i: int| if i == 0 { 0xc0u8 } else { 0u8 })
}

} // verus!
