//! Everything related to artists.
//!
//! There are three kinds of artist: [`FullArtist`], [`PartialArtist`] and
//! [`LocalArtist`].
//!
//! - [`FullArtist`] holds all that the catalog knows about an artist. The
//!   catalog gives it where an artist is asked for by itself.
//! - [`PartialArtist`] holds most of it. The catalog gives it as a part of
//!   other entities, such as the artists of a track.
//! - [`LocalArtist`] holds only the name and the external URLs. It comes from
//!   a file of the user's own in a playlist, and has no identifier.
//!
//! [`Artist`] is any of the three. What an artist holds is read through the
//! traits [`CommonArtistInformation`], [`NonLocalArtistInformation`] and
//! [`FullArtistInformation`]; an artist type implements those whose
//! information it holds.

mod conversions;
pub mod document;
pub mod laws;
mod private;
pub mod views;

pub use document::ArtistDocument;

use crate::model::ExternalUrls;
use crate::model::Image;
use crate::model::Tier;
use views::ArtistObjectView;
use views::ArtistView;
use views::CommonFieldsView;
use views::FullArtistView;
use views::FullFieldsView;
use views::LocalArtistView;
use views::NonLocalFieldsView;
use views::PartialArtistView;
use vstd::prelude::*;

verus! {

/// Functions for retrieving information that is common to every artist type.
pub trait CommonArtistInformation: crate::private::Sealed {
    /// The tier that the functions of this trait read.
    spec fn common_tier(&self) -> CommonFieldsView;

    /// The artist's name.
    fn name(&self) -> (r: &str)
        ensures
            r@ == self.common_tier().name,
    ;

    /// The external URLs for the artist.
    fn external_urls(&self) -> (r: &ExternalUrls)
        ensures
            r@ == self.common_tier().external_urls,
    ;
}

/// Functions for retrieving information only in full artists.
pub trait FullArtistInformation: crate::private::Sealed {
    /// The tier that the functions of this trait read.
    spec fn full_tier(&self) -> FullFieldsView;

    /// Genres the artist is associated with.
    fn genres(&self) -> (r: &[String])
        ensures
            r.deep_view() == self.full_tier().genres,
    ;

    /// Images for the artist.
    fn images(&self) -> (r: &[Image])
        ensures
            r.deep_view() == self.full_tier().images,
    ;

    /// The artist's popularity.
    fn popularity(&self) -> (r: u32)
        ensures
            r == self.full_tier().popularity,
    ;
}

/// Functions for retrieving information that is available in non-local artists.
pub trait NonLocalArtistInformation: crate::private::Sealed {
    /// The tier that the functions of this trait read.
    spec fn non_local_tier(&self) -> NonLocalFieldsView;

    /// The artist's identifier in the catalog.
    fn id(&self) -> (r: &str)
        ensures
            r@ == self.non_local_tier().id,
    ;
}

impl<T> CommonArtistInformation for T where T: private::CommonFields + crate::private::Sealed {
    open spec fn common_tier(&self) -> CommonFieldsView {
        self.common_view()
    }

    fn name(&self) -> (r: &str) {
        self.common_fields().name.as_str()
    }

    fn external_urls(&self) -> (r: &ExternalUrls) {
        &self.common_fields().external_urls
    }
}

impl<T> FullArtistInformation for T where T: private::FullFields + crate::private::Sealed {
    open spec fn full_tier(&self) -> FullFieldsView {
        self.full_view()
    }

    fn genres(&self) -> (r: &[String]) {
        let full = self.full_fields();
        let r = full.genres.as_slice();
        assert(r.deep_view() =~= full.genres.deep_view());
        r
    }

    fn images(&self) -> (r: &[Image]) {
        let full = self.full_fields();
        let r = full.images.as_slice();
        assert(r.deep_view() =~= full.images.deep_view());
        r
    }

    fn popularity(&self) -> (r: u32) {
        self.full_fields().popularity
    }
}

impl<T> NonLocalArtistInformation for T where T: private::NonLocalFields + crate::private::Sealed {
    open spec fn non_local_tier(&self) -> NonLocalFieldsView {
        self.non_local_view()
    }

    fn id(&self) -> (r: &str) {
        self.non_local_fields().id.as_str()
    }
}

/// An enum that encompasses all artist types.
#[derive(Debug, PartialEq, Eq)]
pub enum Artist {
    Full(Box<FullArtist>),
    Partial(Box<PartialArtist>),
    Local(Box<LocalArtist>),
}

/// This struct covers all the possible answers of the catalog about an
/// artist: the common tier, and each of the other two if the answer held it.
/// It becomes an [`Artist`] depending on which tiers are set.
#[derive(Debug, PartialEq, Eq)]
pub struct ArtistObject {
    /// Fields available in every artist
    common: CommonArtistFields,
    /// Fields only in non-local artist
    non_local: Option<NonLocalArtistFields>,
    /// Fields only in full artist
    full: Option<FullArtistFields>,
}

/// Fields available in every artist.
#[derive(Debug, PartialEq, Eq)]
pub(crate) struct CommonArtistFields {
    name: String,
    external_urls: ExternalUrls,
}

/// Fields only in full artist.
#[derive(Debug, PartialEq, Eq)]
pub(crate) struct FullArtistFields {
    genres: Vec<String>,
    images: Vec<Image>,
    popularity: u32,
}

/// Fields only in non-local artist.
#[derive(Debug, PartialEq, Eq)]
pub(crate) struct NonLocalArtistFields {
    id: String,
}

/// A full artist. Contains [full information](self::FullArtistInformation), in addition to all
/// [common](self::CommonArtistInformation) and [non-local](self::NonLocalArtistInformation) information about an
/// artist.
#[derive(Debug, PartialEq, Eq)]
pub struct FullArtist {
    common: CommonArtistFields,
    non_local: NonLocalArtistFields,
    full: FullArtistFields,
}

/// A partial artist. Contains all [common](self::CommonArtistInformation) and
/// [non-local](self::NonLocalArtistInformation) information about an artist.
#[derive(Debug, PartialEq, Eq)]
pub struct PartialArtist {
    common: CommonArtistFields,
    non_local: NonLocalArtistFields,
}

/// A local artist. Contains only the information [common to every artist](self::CommonArtistInformation).
#[derive(Debug, PartialEq, Eq)]
pub struct LocalArtist {
    common: CommonArtistFields,
}

impl View for CommonArtistFields {
    type V = CommonFieldsView;

    closed spec fn view(&self) -> CommonFieldsView {
        CommonFieldsView { name: self.name@, external_urls: self.external_urls@ }
    }
}

impl View for FullArtistFields {
    type V = FullFieldsView;

    closed spec fn view(&self) -> FullFieldsView {
        FullFieldsView {
            genres: self.genres.deep_view(),
            images: self.images.deep_view(),
            popularity: self.popularity,
        }
    }
}

impl View for NonLocalArtistFields {
    type V = NonLocalFieldsView;

    closed spec fn view(&self) -> NonLocalFieldsView {
        NonLocalFieldsView { id: self.id@ }
    }
}

impl View for ArtistObject {
    type V = ArtistObjectView;

    closed spec fn view(&self) -> ArtistObjectView {
        ArtistObjectView {
            common: self.common@,
            non_local: match self.non_local {
                Some(non_local) => Some(non_local@),
                None => None,
            },
            full: match self.full {
                Some(full) => Some(full@),
                None => None,
            },
        }
    }
}

impl View for FullArtist {
    type V = FullArtistView;

    closed spec fn view(&self) -> FullArtistView {
        FullArtistView { common: self.common@, non_local: self.non_local@, full: self.full@ }
    }
}

impl View for PartialArtist {
    type V = PartialArtistView;

    closed spec fn view(&self) -> PartialArtistView {
        PartialArtistView { common: self.common@, non_local: self.non_local@ }
    }
}

impl View for LocalArtist {
    type V = LocalArtistView;

    closed spec fn view(&self) -> LocalArtistView {
        LocalArtistView { common: self.common@ }
    }
}

impl View for Artist {
    type V = ArtistView;

    open spec fn view(&self) -> ArtistView {
        match self {
            Artist::Full(full) => ArtistView::Full(full@),
            Artist::Partial(partial) => ArtistView::Partial(partial@),
            Artist::Local(local) => ArtistView::Local(local@),
        }
    }
}

impl CommonArtistFields {
    /// The common tier with the given name and external URLs.
    pub(crate) fn new(name: String, external_urls: ExternalUrls) -> (r: Self)
        ensures
            r@ == (CommonFieldsView { name: name@, external_urls: external_urls@ }),
    {
        CommonArtistFields { name, external_urls }
    }
}

impl NonLocalArtistFields {
    /// The non-local tier with the given identifier.
    pub(crate) fn new(id: String) -> (r: Self)
        ensures
            r@ == (NonLocalFieldsView { id: id@ }),
    {
        NonLocalArtistFields { id }
    }
}

impl FullArtistFields {
    /// The full tier with the given genres, images and popularity.
    pub(crate) fn new(genres: Vec<String>, images: Vec<Image>, popularity: u32) -> (r: Self)
        ensures
            r@ == (FullFieldsView {
                genres: genres.deep_view(),
                images: images.deep_view(),
                popularity,
            }),
    {
        FullArtistFields { genres, images, popularity }
    }
}

impl ArtistObject {
    /// The answer that holds the given tiers.
    pub(crate) fn new(
        common: CommonArtistFields,
        non_local: Option<NonLocalArtistFields>,
        full: Option<FullArtistFields>,
    ) -> (r: Self)
        ensures
            r@ == (ArtistObjectView {
                common: common@,
                non_local: match non_local {
                    Some(tier) => Some(tier@),
                    None => None,
                },
                full: match full {
                    Some(tier) => Some(tier@),
                    None => None,
                },
            }),
    {
        ArtistObject { common, non_local, full }
    }
}

impl Artist {
    /// Which of the three kinds the artist is of.
    pub fn tier(&self) -> (r: Tier)
        ensures
            r == self@.tier(),
    {
        match self {
            Artist::Full(_) => Tier::Full,
            Artist::Partial(_) => Tier::Partial,
            Artist::Local(_) => Tier::Local,
        }
    }
}

impl Clone for CommonArtistFields {
    fn clone(&self) -> (r: Self)
        ensures
            r@ == self@,
    {
        CommonArtistFields { name: self.name.clone(), external_urls: self.external_urls.clone() }
    }
}

impl Clone for NonLocalArtistFields {
    fn clone(&self) -> (r: Self)
        ensures
            r@ == self@,
    {
        NonLocalArtistFields { id: self.id.clone() }
    }
}

impl Clone for FullArtistFields {
    fn clone(&self) -> (r: Self)
        ensures
            r@ == self@,
    {
        let genres = self.genres.clone();
        let images = self.images.clone();
        assert(genres@ =~= self.genres@);
        assert(images@ =~= self.images@);
        FullArtistFields { genres, images, popularity: self.popularity }
    }
}

impl Clone for ArtistObject {
    fn clone(&self) -> (r: Self)
        ensures
            r@ == self@,
    {
        ArtistObject {
            common: self.common.clone(),
            non_local: match &self.non_local {
                Some(non_local) => Some(non_local.clone()),
                None => None,
            },
            full: match &self.full {
                Some(full) => Some(full.clone()),
                None => None,
            },
        }
    }
}

impl Clone for FullArtist {
    fn clone(&self) -> (r: Self)
        ensures
            r@ == self@,
    {
        FullArtist {
            common: self.common.clone(),
            non_local: self.non_local.clone(),
            full: self.full.clone(),
        }
    }
}

impl Clone for PartialArtist {
    fn clone(&self) -> (r: Self)
        ensures
            r@ == self@,
    {
        PartialArtist { common: self.common.clone(), non_local: self.non_local.clone() }
    }
}

impl Clone for LocalArtist {
    fn clone(&self) -> (r: Self)
        ensures
            r@ == self@,
    {
        LocalArtist { common: self.common.clone() }
    }
}

impl Clone for Artist {
    fn clone(&self) -> (r: Self)
        ensures
            r@ == self@,
    {
        match self {
            Artist::Full(full) => {
                let copy: FullArtist = (**full).clone();
                Artist::Full(Box::new(copy))
            },
            Artist::Partial(partial) => {
                let copy: PartialArtist = (**partial).clone();
                Artist::Partial(Box::new(copy))
            },
            Artist::Local(local) => {
                let copy: LocalArtist = (**local).clone();
                Artist::Local(Box::new(copy))
            },
        }
    }
}

impl crate::private::Sealed for FullArtist {

}

impl crate::private::Sealed for PartialArtist {

}

impl crate::private::Sealed for LocalArtist {

}

impl private::CommonFields for FullArtist {
    open spec fn common_view(&self) -> CommonFieldsView {
        self@.common
    }

    fn common_fields(&self) -> (r: &CommonArtistFields) {
        &self.common
    }
}

impl private::CommonFields for PartialArtist {
    open spec fn common_view(&self) -> CommonFieldsView {
        self@.common
    }

    fn common_fields(&self) -> (r: &CommonArtistFields) {
        &self.common
    }
}

impl private::CommonFields for LocalArtist {
    open spec fn common_view(&self) -> CommonFieldsView {
        self@.common
    }

    fn common_fields(&self) -> (r: &CommonArtistFields) {
        &self.common
    }
}

impl private::NonLocalFields for FullArtist {
    open spec fn non_local_view(&self) -> NonLocalFieldsView {
        self@.non_local
    }

    fn non_local_fields(&self) -> (r: &NonLocalArtistFields) {
        &self.non_local
    }
}

impl private::NonLocalFields for PartialArtist {
    open spec fn non_local_view(&self) -> NonLocalFieldsView {
        self@.non_local
    }

    fn non_local_fields(&self) -> (r: &NonLocalArtistFields) {
        &self.non_local
    }
}

impl private::FullFields for FullArtist {
    open spec fn full_view(&self) -> FullFieldsView {
        self@.full
    }

    fn full_fields(&self) -> (r: &FullArtistFields) {
        &self.full
    }
}

} // verus!
