//! What can go wrong while an answer of the catalog becomes an entity.

use crate::model::Tier;
use vstd::prelude::*;

verus! {

/// The answer does not have the shape of the entity that was asked for.
///
/// Such an answer is ordinary bad data: the caller may ask another endpoint,
/// or report the error.
#[derive(Debug, Clone, Copy, PartialEq, Eq, Structural)]
pub enum DecodeError {
    /// The answer has no `name`.
    MissingName,
    /// The answer has no `type`.
    MissingType,
    /// The `type` of the answer is that of another kind of entity.
    UnexpectedType,
    /// The `external_urls` of the answer name a provider twice.
    MalformedExternalUrls,
}

/// The tiers of a value do not allow what was asked of it.
///
/// Such a value contradicts what the catalog promises, or the caller asked
/// for more than the value holds; neither is ordinary bad data.
#[derive(Debug, Clone, Copy, PartialEq, Eq, Structural)]
pub enum TierError {
    /// The full tier is present without the non-local tier.
    InvalidTierCombination,
    /// A value of the tier `found` cannot become one of the tier `wanted`.
    UnsupportedNarrowing { found: Tier, wanted: Tier },
}

/// Why an answer of the catalog did not become an artist.
#[derive(Debug, Clone, Copy, PartialEq, Eq, Structural)]
pub enum ArtistError {
    /// The answer does not have the shape of an artist.
    Schema(DecodeError),
    /// The answer has the shape of an artist, but its tiers contradict each other.
    Tier(TierError),
}

/// Why a sequence of answers did not become a sequence of artists: the
/// position of the first answer that failed, and why it failed.
#[derive(Debug, Clone, Copy, PartialEq, Eq, Structural)]
pub struct BatchError {
    pub index: usize,
    pub error: ArtistError,
}

} // verus!
