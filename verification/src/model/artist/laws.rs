//! What holds of the conversions between artists, whatever the artist.

use super::document::ArtistDocumentView;
use super::views::ArtistObjectView;
use super::views::ArtistView;
use super::views::FullArtistView;
use super::views::LocalArtistView;
use super::views::PartialArtistView;
use super::Artist;
use super::FullArtist;
use crate::error::ArtistError;
use crate::error::TierError;
use crate::model::external_urls::distinct_providers;
use crate::model::object_type::type_artist;
use crate::model::Tier;
use vstd::prelude::*;
use vstd::std_specs::convert::FromSpec;
use vstd::std_specs::convert::TryFromSpec;

verus! {

/// A full artist that is widened to an artist of any kind and narrowed to a
/// full artist again is the artist it was.
pub proof fn lemma_widen_then_narrow_to_full(full: FullArtistView)
    ensures
        full.widen().narrow_to_full() == Ok::<FullArtistView, TierError>(full),
{
}

/// The same of the values themselves: converting a full artist into an
/// [`Artist`] and back gives the full artist that went in.
pub proof fn lemma_artist_from_full_then_back(full: FullArtist)
    ensures
        <FullArtist as TryFromSpec<Artist>>::try_from_spec(
            <Artist as FromSpec<FullArtist>>::from_spec(full),
        ) == Ok::<FullArtist, TierError>(full),
{
}

/// A partial artist that is widened and narrowed to a partial artist again is
/// the artist it was.
pub proof fn lemma_widen_then_narrow_to_partial(partial: PartialArtistView)
    ensures
        partial.widen().narrow_to_partial() == Ok::<PartialArtistView, TierError>(partial),
{
}

/// Dropping the tiers of a full artist one after the other gives the same
/// local artist as dropping both at once.
pub proof fn lemma_full_to_local_by_steps(full: FullArtistView)
    ensures
        full.to_partial().to_local() == full.to_local(),
{
}

/// Dropping tiers gives the same artist before and after widening: to narrow
/// the widened artist is to drop the tiers of the artist itself.
pub proof fn lemma_drop_after_widen(
    full: FullArtistView,
    partial: PartialArtistView,
    local: LocalArtistView,
)
    ensures
        full.widen().to_local() == full.to_local(),
        full.widen().narrow_to_partial() == Ok::<PartialArtistView, TierError>(full.to_partial()),
        partial.widen().to_local() == partial.to_local(),
        local.widen().to_local() == local,
{
}

/// Narrowing succeeds on the artists that hold the tiers asked for, and on
/// no others: to a full artist from a full one, to a partial artist from a
/// full or partial one. The error names the kind that was found.
pub proof fn lemma_narrowing_needs_the_tiers(artist: ArtistView)
    ensures
        artist.narrow_to_full() is Ok <==> artist.tier() == Tier::Full,
        artist.narrow_to_full() is Err ==> artist.narrow_to_full() == Err::<
            FullArtistView,
            TierError,
        >(TierError::UnsupportedNarrowing { found: artist.tier(), wanted: Tier::Full }),
        artist.narrow_to_partial() is Ok <==> artist.tier() != Tier::Local,
        artist.narrow_to_partial() is Err ==> artist.narrow_to_partial() == Err::<
            PartialArtistView,
            TierError,
        >(TierError::UnsupportedNarrowing { found: Tier::Local, wanted: Tier::Partial }),
{
}

/// Classification decides for every answer. Of the four ways in which the
/// two optional tiers can be present, three give the artist of the matching
/// kind, made of the tiers of the answer and nothing else; the fourth, a
/// full tier without the non-local tier, gives the error
/// [`TierError::InvalidTierCombination`] and never an artist.
pub proof fn lemma_classification_is_total(obj: ArtistObjectView)
    ensures
        obj.non_local is Some && obj.full is Some ==> obj.classify() == Ok::<ArtistView, TierError>(
            ArtistView::Full(
                FullArtistView {
                    common: obj.common,
                    non_local: obj.non_local->0,
                    full: obj.full->0,
                },
            ),
        ),
        obj.non_local is Some && obj.full is None ==> obj.classify() == Ok::<ArtistView, TierError>(
            ArtistView::Partial(
                PartialArtistView { common: obj.common, non_local: obj.non_local->0 },
            ),
        ),
        obj.non_local is None && obj.full is None ==> obj.classify() == Ok::<ArtistView, TierError>(
            ArtistView::Local(LocalArtistView { common: obj.common }),
        ),
        obj.non_local is None && obj.full is Some ==> obj.classify() == Err::<ArtistView, TierError>(
            TierError::InvalidTierCombination,
        ),
        obj.classify() is Err <==> obj.non_local is None && obj.full is Some,
{
}

/// Classification is the inverse of taking an artist apart into its tiers:
/// an answer is classified as an artist exactly if it holds the tiers of
/// that artist, so every artist is the classification of one answer.
pub proof fn lemma_classification_inverts_tiers(obj: ArtistObjectView, artist: ArtistView)
    ensures
        obj.classify() == Ok::<ArtistView, TierError>(artist) <==> artist.tiers() == obj,
        artist.tiers().classify() == Ok::<ArtistView, TierError>(artist),
{
}

/// An answer becomes an artist of one kind only if it holds the tiers of
/// that kind and no other tier.
pub proof fn lemma_exact_classification(obj: ArtistObjectView)
    ensures
        obj.to_full() is Ok <==> obj.non_local is Some && obj.full is Some,
        obj.to_partial() is Ok <==> obj.non_local is Some && obj.full is None,
        obj.to_local() is Ok <==> obj.non_local is None && obj.full is None,
        obj.to_full() matches Ok(full) ==> obj.classify() == Ok::<ArtistView, TierError>(
            full.widen(),
        ),
        obj.to_partial() matches Ok(partial) ==> obj.classify() == Ok::<ArtistView, TierError>(
            partial.widen(),
        ),
        obj.to_local() matches Ok(local) ==> obj.classify() == Ok::<ArtistView, TierError>(
            local.widen(),
        ),
        obj.classify() is Err ==> obj.to_full() == Err::<FullArtistView, TierError>(
            TierError::InvalidTierCombination,
        ) && obj.to_partial() == Err::<PartialArtistView, TierError>(
            TierError::InvalidTierCombination,
        ) && obj.to_local() == Err::<LocalArtistView, TierError>(
            TierError::InvalidTierCombination,
        ),
{
}

/// An answer is decoded exactly if it has a name, the type of an artist and
/// external URLs that name no provider twice. The name, the identifier and
/// the fields of the full tier of what comes out are those of the answer.
pub proof fn lemma_decode_accepts(doc: ArtistDocumentView)
    ensures
        doc.decode() is Ok <==> {
            &&& doc.name is Some
            &&& doc.item_type == Some(type_artist())
            &&& doc.external_urls matches Some(entries) ==> distinct_providers(entries)
        },
        doc.decode() matches Ok(obj) ==> {
            &&& Some(obj.common.name) == doc.name
            &&& obj.non_local is Some <==> doc.id is Some
            &&& obj.non_local matches Some(tier) ==> Some(tier.id) == doc.id
            &&& obj.full is Some <==> doc.genres is Some && doc.images is Some
                && doc.popularity is Some
            &&& obj.full matches Some(tier) ==> Some(tier.genres) == doc.genres && Some(tier.images)
                == doc.images && Some(tier.popularity) == doc.popularity
        },
{
}

/// An answer that is decoded describes an artist unless it holds the full
/// tier without an identifier; an answer that is not decoded describes none,
/// and the error is that of the decoding.
pub proof fn lemma_artist_of_document(doc: ArtistDocumentView)
    ensures
        doc.artist() is Ok <==> doc.decode() is Ok && !(doc.id is None && doc.full() is Some),
        doc.decode() matches Err(e) ==> doc.artist() == Err::<ArtistView, ArtistError>(
            ArtistError::Schema(e),
        ),
        doc.decode() is Ok && doc.id is None && doc.full() is Some ==> doc.artist() == Err::<
            ArtistView,
            ArtistError,
        >(ArtistError::Tier(TierError::InvalidTierCombination)),
        doc.artist() matches Ok(artist) ==> Ok::<ArtistObjectView, crate::error::DecodeError>(
            artist.tiers(),
        ) == doc.decode(),
{
}

} // verus!
