use vstd::prelude::*;

verus! {

/// Why an encoded offer string was rejected.
#[derive(Debug, Clone, Copy, PartialEq, Eq, Structural)]
pub enum FormatError {
    /// The string is not bech32 at all (bad character, case, separator or checksum).
    Malformed,
    /// The checksum is valid but of the original bech32 variant, not bech32m.
    WrongVariant,
    /// The human-readable part is not `partial`.
    WrongPrefix,
    /// The 5-bit groups leave non-zero or over-long padding when regrouped into bytes.
    BadPadding,
}

/// Why a bundle could not be read back as an offer.
#[derive(Debug, Clone, Copy, PartialEq, Eq, Structural)]
pub enum HintError {
    /// No spend carries the sentinel locking-script hash.
    Missing,
    /// More than one spend carries the sentinel locking-script hash.
    Conflicting,
    /// The sentinel spend's reveal is not a well-formed hint.
    Ambiguous,
}

/// Every failure this library reports.
#[derive(Debug, Clone, Copy, PartialEq, Eq, Structural)]
pub enum PartialOfferError {
    Format(FormatError),
    Hint(HintError),
    /// The counter-offer lacks the requested asset or the fee coin.
    IncompatibleAssetInfo,
    /// A pricing product does not fit in 64 bits.
    ArithmeticOverflow,
    /// The taker asks for more than the offer coin holds.
    OverFill,
    /// An aggregated signature is not a valid curve point.
    InvalidSignature,
    /// No merkle proof exists for a leaf of the two-leaf commitment.
    InvalidMerkleProof,
    /// The targeted coin was already spent when the bundle was submitted.
    ConsensusRace,
}

} // verus!
