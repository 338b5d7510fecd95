//! Partial offers: a coin that a maker locks so that takers can fill it
//! piece by piece at a fixed ratio, with a maker-only claw-back path.
//!
//! The library derives the coin's commitment hashes, publishes and reads back
//! the offer's terms as an on-chain hint, plans fills and claw-backs, and
//! encodes offers for exchange off-chain.
use vstd::prelude::*;

pub mod accept;
pub mod atom;
pub mod bytes;
pub mod clvm;
pub mod codec;
pub mod error;
pub mod hash;
pub mod info;
pub mod offer;
pub mod price;
pub mod puzzles;
pub mod spend;
pub mod templates;
pub mod types;

pub use accept::{AcceptedOffer, BranchReveal, CounterOffer, NotarizedPayment, SpendBranch};
pub use bytes::Bytes32;
pub use clvm::Program;
pub use codec::{decode_partial_offer_data, encode_partial_offer_data};
pub use error::{FormatError, HintError, PartialOfferError};
pub use info::{CatMaker, PartialOfferHint, PartialOfferInfo, PartialPuzzleArgs};
pub use offer::PartialOffer;
pub use price::PartialPriceData;
pub use puzzles::{MerkleProof, PARTIAL_PUZZLE, PARTIAL_PUZZLE_HASH};
pub use spend::{CoinProof, PartialSolution};
pub use templates::PuzzleTemplates;
pub use types::{Coin, CoinSpend, LineageProof, PartialOfferAssetInfo, SpendBundle};

verus! {

} // verus!
