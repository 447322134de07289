//! The conversions between an answer of the catalog, the artist of any kind
//! and the three kinds of artist.
//!
//! A conversion that only forgets (which kind an artist is of, or a tier) is
//! a `From` and always succeeds. A conversion that needs a tier to be there
//! is a `TryFrom`, and says in its error what it found instead. None of them
//! makes up a tier, and none but those named after it drops one.

use super::views::view_of;
use super::Artist;
use super::ArtistObject;
use super::FullArtist;
use super::LocalArtist;
use super::PartialArtist;
use crate::error::TierError;
use crate::model::Tier;
use vstd::prelude::*;
use vstd::std_specs::convert::FromSpecImpl;
use vstd::std_specs::convert::TryFromSpecImpl;

verus! {

impl From<FullArtist> for Artist {
    fn from(full: FullArtist) -> (r: Artist)
        ensures
            r@ == full@.widen(),
    {
        Artist::Full(Box::new(full))
    }
}

impl FromSpecImpl<FullArtist> for Artist {
    open spec fn obeys_from_spec() -> bool {
        true
    }

    open spec fn from_spec(full: FullArtist) -> Artist {
        Artist::Full(Box::new(full))
    }
}

impl From<PartialArtist> for Artist {
    fn from(partial: PartialArtist) -> (r: Artist)
        ensures
            r@ == partial@.widen(),
    {
        Artist::Partial(Box::new(partial))
    }
}

impl FromSpecImpl<PartialArtist> for Artist {
    open spec fn obeys_from_spec() -> bool {
        true
    }

    open spec fn from_spec(partial: PartialArtist) -> Artist {
        Artist::Partial(Box::new(partial))
    }
}

impl From<LocalArtist> for Artist {
    fn from(local: LocalArtist) -> (r: Artist)
        ensures
            r@ == local@.widen(),
    {
        Artist::Local(Box::new(local))
    }
}

impl FromSpecImpl<LocalArtist> for Artist {
    open spec fn obeys_from_spec() -> bool {
        true
    }

    open spec fn from_spec(local: LocalArtist) -> Artist {
        Artist::Local(Box::new(local))
    }
}

impl From<FullArtist> for PartialArtist {
    fn from(full: FullArtist) -> (r: PartialArtist)
        ensures
            r@ == full@.to_partial(),
    {
        PartialArtist { common: full.common, non_local: full.non_local }
    }
}

impl FromSpecImpl<FullArtist> for PartialArtist {
    open spec fn obeys_from_spec() -> bool {
        true
    }

    closed spec fn from_spec(full: FullArtist) -> PartialArtist {
        PartialArtist { common: full.common, non_local: full.non_local }
    }
}

impl From<FullArtist> for LocalArtist {
    fn from(full: FullArtist) -> (r: LocalArtist)
        ensures
            r@ == full@.to_local(),
    {
        LocalArtist { common: full.common }
    }
}

impl FromSpecImpl<FullArtist> for LocalArtist {
    open spec fn obeys_from_spec() -> bool {
        true
    }

    closed spec fn from_spec(full: FullArtist) -> LocalArtist {
        LocalArtist { common: full.common }
    }
}

impl From<PartialArtist> for LocalArtist {
    fn from(partial: PartialArtist) -> (r: LocalArtist)
        ensures
            r@ == partial@.to_local(),
    {
        LocalArtist { common: partial.common }
    }
}

impl FromSpecImpl<PartialArtist> for LocalArtist {
    open spec fn obeys_from_spec() -> bool {
        true
    }

    closed spec fn from_spec(partial: PartialArtist) -> LocalArtist {
        LocalArtist { common: partial.common }
    }
}

impl From<Artist> for LocalArtist {
    fn from(artist: Artist) -> (r: LocalArtist)
        ensures
            r@ == artist@.to_local(),
    {
        match artist {
            Artist::Full(full) => LocalArtist { common: full.common },
            Artist::Partial(partial) => LocalArtist { common: partial.common },
            Artist::Local(local) => *local,
        }
    }
}

impl FromSpecImpl<Artist> for LocalArtist {
    open spec fn obeys_from_spec() -> bool {
        true
    }

    closed spec fn from_spec(artist: Artist) -> LocalArtist {
        match artist {
            Artist::Full(full) => LocalArtist { common: full.common },
            Artist::Partial(partial) => LocalArtist { common: partial.common },
            Artist::Local(local) => *local,
        }
    }
}

impl TryFrom<Artist> for FullArtist {
    type Error = TierError;

    fn try_from(artist: Artist) -> (r: Result<FullArtist, TierError>)
        ensures
            view_of(r) == artist@.narrow_to_full(),
    {
        match artist {
            Artist::Full(full) => Ok(*full),
            Artist::Partial(_) => Err(
                TierError::UnsupportedNarrowing { found: Tier::Partial, wanted: Tier::Full },
            ),
            Artist::Local(_) => Err(
                TierError::UnsupportedNarrowing { found: Tier::Local, wanted: Tier::Full },
            ),
        }
    }
}

impl TryFromSpecImpl<Artist> for FullArtist {
    open spec fn obeys_try_from_spec() -> bool {
        true
    }

    open spec fn try_from_spec(artist: Artist) -> Result<FullArtist, TierError> {
        match artist {
            Artist::Full(full) => Ok(*full),
            Artist::Partial(_) => Err(
                TierError::UnsupportedNarrowing { found: Tier::Partial, wanted: Tier::Full },
            ),
            Artist::Local(_) => Err(
                TierError::UnsupportedNarrowing { found: Tier::Local, wanted: Tier::Full },
            ),
        }
    }
}

impl TryFrom<Artist> for PartialArtist {
    type Error = TierError;

    fn try_from(artist: Artist) -> (r: Result<PartialArtist, TierError>)
        ensures
            view_of(r) == artist@.narrow_to_partial(),
    {
        match artist {
            Artist::Full(full) => Ok(
                PartialArtist { common: full.common, non_local: full.non_local },
            ),
            Artist::Partial(partial) => Ok(*partial),
            Artist::Local(_) => Err(
                TierError::UnsupportedNarrowing { found: Tier::Local, wanted: Tier::Partial },
            ),
        }
    }
}

impl TryFromSpecImpl<Artist> for PartialArtist {
    open spec fn obeys_try_from_spec() -> bool {
        true
    }

    closed spec fn try_from_spec(artist: Artist) -> Result<PartialArtist, TierError> {
        match artist {
            Artist::Full(full) => Ok(
                PartialArtist { common: full.common, non_local: full.non_local },
            ),
            Artist::Partial(partial) => Ok(*partial),
            Artist::Local(_) => Err(
                TierError::UnsupportedNarrowing { found: Tier::Local, wanted: Tier::Partial },
            ),
        }
    }
}

impl TryFrom<ArtistObject> for Artist {
    type Error = TierError;

    fn try_from(obj: ArtistObject) -> (r: Result<Artist, TierError>)
        ensures
            view_of(r) == obj@.classify(),
    {
        match (obj.non_local, obj.full) {
            (Some(non_local), Some(full)) => Ok(
                Artist::Full(Box::new(FullArtist { common: obj.common, non_local, full })),
            ),
            (Some(non_local), None) => Ok(
                Artist::Partial(Box::new(PartialArtist { common: obj.common, non_local })),
            ),
            (None, None) => Ok(Artist::Local(Box::new(LocalArtist { common: obj.common }))),
            (None, Some(_)) => Err(TierError::InvalidTierCombination),
        }
    }
}

impl TryFromSpecImpl<ArtistObject> for Artist {
    open spec fn obeys_try_from_spec() -> bool {
        true
    }

    closed spec fn try_from_spec(obj: ArtistObject) -> Result<Artist, TierError> {
        match (obj.non_local, obj.full) {
            (Some(non_local), Some(full)) => Ok(
                Artist::Full(Box::new(FullArtist { common: obj.common, non_local, full })),
            ),
            (Some(non_local), None) => Ok(
                Artist::Partial(Box::new(PartialArtist { common: obj.common, non_local })),
            ),
            (None, None) => Ok(Artist::Local(Box::new(LocalArtist { common: obj.common }))),
            (None, Some(_)) => Err(TierError::InvalidTierCombination),
        }
    }
}

impl TryFrom<ArtistObject> for FullArtist {
    type Error = TierError;

    fn try_from(obj: ArtistObject) -> (r: Result<FullArtist, TierError>)
        ensures
            view_of(r) == obj@.to_full(),
    {
        match (obj.non_local, obj.full) {
            (Some(non_local), Some(full)) => Ok(FullArtist { common: obj.common, non_local, full }),
            (Some(_), None) => Err(
                TierError::UnsupportedNarrowing { found: Tier::Partial, wanted: Tier::Full },
            ),
            (None, None) => Err(
                TierError::UnsupportedNarrowing { found: Tier::Local, wanted: Tier::Full },
            ),
            (None, Some(_)) => Err(TierError::InvalidTierCombination),
        }
    }
}

impl TryFromSpecImpl<ArtistObject> for FullArtist {
    open spec fn obeys_try_from_spec() -> bool {
        true
    }

    closed spec fn try_from_spec(obj: ArtistObject) -> Result<FullArtist, TierError> {
        match (obj.non_local, obj.full) {
            (Some(non_local), Some(full)) => Ok(FullArtist { common: obj.common, non_local, full }),
            (Some(_), None) => Err(
                TierError::UnsupportedNarrowing { found: Tier::Partial, wanted: Tier::Full },
            ),
            (None, None) => Err(
                TierError::UnsupportedNarrowing { found: Tier::Local, wanted: Tier::Full },
            ),
            (None, Some(_)) => Err(TierError::InvalidTierCombination),
        }
    }
}

impl TryFrom<ArtistObject> for PartialArtist {
    type Error = TierError;

    fn try_from(obj: ArtistObject) -> (r: Result<PartialArtist, TierError>)
        ensures
            view_of(r) == obj@.to_partial(),
    {
        match (obj.non_local, obj.full) {
            (Some(non_local), None) => Ok(PartialArtist { common: obj.common, non_local }),
            (Some(_), Some(_)) => Err(
                TierError::UnsupportedNarrowing { found: Tier::Full, wanted: Tier::Partial },
            ),
            (None, None) => Err(
                TierError::UnsupportedNarrowing { found: Tier::Local, wanted: Tier::Partial },
            ),
            (None, Some(_)) => Err(TierError::InvalidTierCombination),
        }
    }
}

impl TryFromSpecImpl<ArtistObject> for PartialArtist {
    open spec fn obeys_try_from_spec() -> bool {
        true
    }

    closed spec fn try_from_spec(obj: ArtistObject) -> Result<PartialArtist, TierError> {
        match (obj.non_local, obj.full) {
            (Some(non_local), None) => Ok(PartialArtist { common: obj.common, non_local }),
            (Some(_), Some(_)) => Err(
                TierError::UnsupportedNarrowing { found: Tier::Full, wanted: Tier::Partial },
            ),
            (None, None) => Err(
                TierError::UnsupportedNarrowing { found: Tier::Local, wanted: Tier::Partial },
            ),
            (None, Some(_)) => Err(TierError::InvalidTierCombination),
        }
    }
}

impl TryFrom<ArtistObject> for LocalArtist {
    type Error = TierError;

    fn try_from(obj: ArtistObject) -> (r: Result<LocalArtist, TierError>)
        ensures
            view_of(r) == obj@.to_local(),
    {
        match (obj.non_local, obj.full) {
            (None, None) => Ok(LocalArtist { common: obj.common }),
            (Some(_), Some(_)) => Err(
                TierError::UnsupportedNarrowing { found: Tier::Full, wanted: Tier::Local },
            ),
            (Some(_), None) => Err(
                TierError::UnsupportedNarrowing { found: Tier::Partial, wanted: Tier::Local },
            ),
            (None, Some(_)) => Err(TierError::InvalidTierCombination),
        }
    }
}

impl TryFromSpecImpl<ArtistObject> for LocalArtist {
    open spec fn obeys_try_from_spec() -> bool {
        true
    }

    closed spec fn try_from_spec(obj: ArtistObject) -> Result<LocalArtist, TierError> {
        match (obj.non_local, obj.full) {
            (None, None) => Ok(LocalArtist { common: obj.common }),
            (Some(_), Some(_)) => Err(
                TierError::UnsupportedNarrowing { found: Tier::Full, wanted: Tier::Local },
            ),
            (Some(_), None) => Err(
                TierError::UnsupportedNarrowing { found: Tier::Partial, wanted: Tier::Local },
            ),
            (None, Some(_)) => Err(TierError::InvalidTierCombination),
        }
    }
}

} // verus!
