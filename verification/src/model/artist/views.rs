//! The artists as mathematical values, and the conversions between them as
//! functions on those values.
//!
//! An artist is made of up to three tiers: what every artist has, what every
//! artist of the catalog has, and what only a fully described artist has. The
//! contracts of the executable conversions are stated with the functions of
//! this module.

use crate::error::TierError;
use crate::model::image::ImageView;
use crate::model::Tier;
use vstd::prelude::*;

verus! {

/// The tier that every artist has.
pub struct CommonFieldsView {
    pub name: Seq<char>,
    pub external_urls: Map<Seq<char>, Seq<char>>,
}

/// The tier that every artist has but one that comes from a local file.
pub struct NonLocalFieldsView {
    pub id: Seq<char>,
}

/// The tier that only a fully described artist has.
pub struct FullFieldsView {
    pub genres: Seq<Seq<char>>,
    pub images: Seq<ImageView>,
    pub popularity: u32,
}

/// An answer of the catalog, with the tiers that it happened to hold.
pub struct ArtistObjectView {
    pub common: CommonFieldsView,
    pub non_local: Option<NonLocalFieldsView>,
    pub full: Option<FullFieldsView>,
}

/// An artist with all three tiers.
pub struct FullArtistView {
    pub common: CommonFieldsView,
    pub non_local: NonLocalFieldsView,
    pub full: FullFieldsView,
}

/// An artist without the full tier.
pub struct PartialArtistView {
    pub common: CommonFieldsView,
    pub non_local: NonLocalFieldsView,
}

/// An artist with the common tier alone.
pub struct LocalArtistView {
    pub common: CommonFieldsView,
}

/// An artist of any of the three kinds.
pub enum ArtistView {
    Full(FullArtistView),
    Partial(PartialArtistView),
    Local(LocalArtistView),
}

impl FullArtistView {
    /// The same artist, as an artist of any kind.
    pub open spec fn widen(self) -> ArtistView {
        ArtistView::Full(self)
    }

    /// The artist without its full tier.
    pub open spec fn to_partial(self) -> PartialArtistView {
        PartialArtistView { common: self.common, non_local: self.non_local }
    }

    /// The artist without its full and non-local tiers.
    pub open spec fn to_local(self) -> LocalArtistView {
        LocalArtistView { common: self.common }
    }
}

impl PartialArtistView {
    /// The same artist, as an artist of any kind.
    pub open spec fn widen(self) -> ArtistView {
        ArtistView::Partial(self)
    }

    /// The artist without its non-local tier.
    pub open spec fn to_local(self) -> LocalArtistView {
        LocalArtistView { common: self.common }
    }
}

impl LocalArtistView {
    /// The same artist, as an artist of any kind.
    pub open spec fn widen(self) -> ArtistView {
        ArtistView::Local(self)
    }
}

impl ArtistView {
    /// Which of the three kinds the artist is of.
    pub open spec fn tier(self) -> Tier {
        match self {
            ArtistView::Full(_) => Tier::Full,
            ArtistView::Partial(_) => Tier::Partial,
            ArtistView::Local(_) => Tier::Local,
        }
    }

    /// The tiers of the artist, each present or absent: the answer of the
    /// catalog that describes this artist.
    pub open spec fn tiers(self) -> ArtistObjectView {
        match self {
            ArtistView::Full(full) => ArtistObjectView {
                common: full.common,
                non_local: Some(full.non_local),
                full: Some(full.full),
            },
            ArtistView::Partial(partial) => ArtistObjectView {
                common: partial.common,
                non_local: Some(partial.non_local),
                full: None,
            },
            ArtistView::Local(local) => ArtistObjectView {
                common: local.common,
                non_local: None,
                full: None,
            },
        }
    }

    /// The artist as a full artist, which it has to be already.
    pub open spec fn narrow_to_full(self) -> Result<FullArtistView, TierError> {
        match self {
            ArtistView::Full(full) => Ok(full),
            _ => Err(TierError::UnsupportedNarrowing { found: self.tier(), wanted: Tier::Full }),
        }
    }

    /// The artist as a partial artist. A full artist loses its full tier; a
    /// local artist has no identifier to become one.
    pub open spec fn narrow_to_partial(self) -> Result<PartialArtistView, TierError> {
        match self {
            ArtistView::Full(full) => Ok(full.to_partial()),
            ArtistView::Partial(partial) => Ok(partial),
            ArtistView::Local(_) => Err(
                TierError::UnsupportedNarrowing { found: Tier::Local, wanted: Tier::Partial },
            ),
        }
    }

    /// The artist as a local artist: whatever else it held is dropped.
    pub open spec fn to_local(self) -> LocalArtistView {
        match self {
            ArtistView::Full(full) => full.to_local(),
            ArtistView::Partial(partial) => partial.to_local(),
            ArtistView::Local(local) => local,
        }
    }

    /// The artist as one of the kind `wanted`, which it has to be of already.
    pub open spec fn exactly(self, wanted: Tier) -> Result<ArtistView, TierError> {
        if self.tier() == wanted {
            Ok(self)
        } else {
            Err(TierError::UnsupportedNarrowing { found: self.tier(), wanted })
        }
    }
}

impl ArtistObjectView {
    /// The artist that the answer describes. The kind follows from the tiers
    /// that are present; a full tier without the non-local tier describes no
    /// artist.
    pub open spec fn classify(self) -> Result<ArtistView, TierError> {
        match (self.non_local, self.full) {
            (Some(non_local), Some(full)) => Ok(
                ArtistView::Full(FullArtistView { common: self.common, non_local, full }),
            ),
            (Some(non_local), None) => Ok(
                ArtistView::Partial(PartialArtistView { common: self.common, non_local }),
            ),
            (None, None) => Ok(ArtistView::Local(LocalArtistView { common: self.common })),
            (None, Some(_)) => Err(TierError::InvalidTierCombination),
        }
    }

    /// The artist that the answer describes, if it is of the kind `wanted`.
    pub open spec fn classify_as(self, wanted: Tier) -> Result<ArtistView, TierError> {
        match self.classify() {
            Ok(artist) => artist.exactly(wanted),
            Err(e) => Err(e),
        }
    }

    /// The full artist that the answer describes: it has to hold all three
    /// tiers.
    pub open spec fn to_full(self) -> Result<FullArtistView, TierError> {
        match self.classify_as(Tier::Full) {
            Ok(artist) => Ok(artist->Full_0),
            Err(e) => Err(e),
        }
    }

    /// The partial artist that the answer describes: it has to hold the
    /// common and non-local tiers, and no other.
    pub open spec fn to_partial(self) -> Result<PartialArtistView, TierError> {
        match self.classify_as(Tier::Partial) {
            Ok(artist) => Ok(artist->Partial_0),
            Err(e) => Err(e),
        }
    }

    /// The local artist that the answer describes: it has to hold the common
    /// tier alone.
    pub open spec fn to_local(self) -> Result<LocalArtistView, TierError> {
        match self.classify_as(Tier::Local) {
            Ok(artist) => Ok(artist->Local_0),
            Err(e) => Err(e),
        }
    }
}

/// The outcome of a conversion as a mathematical value: the view of what came
/// out, or the error.
pub open spec fn view_of<T: View, E>(outcome: Result<T, E>) -> Result<T::V, E> {
    match outcome {
        Ok(value) => Ok(value@),
        Err(e) => Err(e),
    }
}

} // verus!
