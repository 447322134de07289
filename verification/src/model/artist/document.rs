//! What the catalog answers about an artist, before anything is known about
//! which of its fields are there.
//!
//! An [`ArtistDocument`] has every field of every tier, each present or
//! absent. Decoding it checks the common tier, which has to be there, and
//! records for each of the other two tiers whether the answer held it.

use super::views::view_of;
use super::views::ArtistObjectView;
use super::views::ArtistView;
use super::views::CommonFieldsView;
use super::views::FullFieldsView;
use super::views::NonLocalFieldsView;
use super::Artist;
use super::ArtistObject;
use super::CommonArtistFields;
use super::FullArtistFields;
use super::NonLocalArtistFields;
use crate::error::ArtistError;
use crate::error::BatchError;
use crate::error::DecodeError;
use crate::model::external_urls::clone_entries;
use crate::model::external_urls::distinct_providers;
use crate::model::external_urls::url_map;
use crate::model::image::ImageView;
use crate::model::object_type::is_type_artist;
use crate::model::object_type::type_artist;
use crate::model::ExternalUrls;
use crate::model::Image;
use vstd::prelude::*;

verus! {

/// An answer of the catalog about one artist, field by field.
#[derive(Debug, PartialEq, Eq)]
pub struct ArtistDocument {
    /// `name`, of the common tier.
    pub name: Option<String>,
    /// `type`, of the common tier.
    pub item_type: Option<String>,
    /// `external_urls`, of the common tier: `(provider, url)` entries.
    pub external_urls: Option<Vec<(String, String)>>,
    /// `id`, of the non-local tier.
    pub id: Option<String>,
    /// `genres`, of the full tier.
    pub genres: Option<Vec<String>>,
    /// `images`, of the full tier.
    pub images: Option<Vec<Image>>,
    /// `popularity`, of the full tier.
    pub popularity: Option<u32>,
}

/// An [`ArtistDocument`] as a mathematical value.
pub struct ArtistDocumentView {
    pub name: Option<Seq<char>>,
    pub item_type: Option<Seq<char>>,
    pub external_urls: Option<Seq<(Seq<char>, Seq<char>)>>,
    pub id: Option<Seq<char>>,
    pub genres: Option<Seq<Seq<char>>>,
    pub images: Option<Seq<ImageView>>,
    pub popularity: Option<u32>,
}

impl View for ArtistDocument {
    type V = ArtistDocumentView;

    open spec fn view(&self) -> ArtistDocumentView {
        ArtistDocumentView {
            name: self.name.deep_view(),
            item_type: self.item_type.deep_view(),
            external_urls: self.external_urls.deep_view(),
            id: self.id.deep_view(),
            genres: self.genres.deep_view(),
            images: self.images.deep_view(),
            popularity: self.popularity,
        }
    }
}

impl DeepView for ArtistDocument {
    type V = ArtistDocumentView;

    open spec fn deep_view(&self) -> ArtistDocumentView {
        self@
    }
}

impl ArtistDocumentView {
    /// The common tier of the answer, or what keeps the answer from having
    /// one. The fields are looked at in the order `name`, `type`,
    /// `external_urls`, and the first that fails decides. Absent external
    /// URLs are the empty mapping.
    pub open spec fn common(self) -> Result<CommonFieldsView, DecodeError> {
        if self.name is None {
            Err(DecodeError::MissingName)
        } else if self.item_type is None {
            Err(DecodeError::MissingType)
        } else if self.item_type->0 != type_artist() {
            Err(DecodeError::UnexpectedType)
        } else {
            match self.external_urls {
                None => Ok(CommonFieldsView { name: self.name->0, external_urls: Map::empty() }),
                Some(entries) => if distinct_providers(entries) {
                    Ok(CommonFieldsView { name: self.name->0, external_urls: url_map(entries) })
                } else {
                    Err(DecodeError::MalformedExternalUrls)
                },
            }
        }
    }

    /// The non-local tier of the answer: present where `id` is.
    pub open spec fn non_local(self) -> Option<NonLocalFieldsView> {
        match self.id {
            Some(id) => Some(NonLocalFieldsView { id }),
            None => None,
        }
    }

    /// The full tier of the answer: present where `genres`, `images` and
    /// `popularity` all are.
    pub open spec fn full(self) -> Option<FullFieldsView> {
        match (self.genres, self.images, self.popularity) {
            (Some(genres), Some(images), Some(popularity)) => Some(
                FullFieldsView { genres, images, popularity },
            ),
            _ => None,
        }
    }

    /// The answer with its tiers, or why it has no common tier.
    pub open spec fn decode(self) -> Result<ArtistObjectView, DecodeError> {
        match self.common() {
            Ok(common) => Ok(
                ArtistObjectView { common, non_local: self.non_local(), full: self.full() },
            ),
            Err(e) => Err(e),
        }
    }

    /// The artist that the answer describes, or why it describes none.
    pub open spec fn artist(self) -> Result<ArtistView, ArtistError> {
        match self.decode() {
            Ok(obj) => match obj.classify() {
                Ok(artist) => Ok(artist),
                Err(e) => Err(ArtistError::Tier(e)),
            },
            Err(e) => Err(ArtistError::Schema(e)),
        }
    }
}

impl ArtistDocument {
    /// The answer without any field.
    pub fn new() -> (r: Self)
        ensures
            r@ == (ArtistDocumentView {
                name: None,
                item_type: None,
                external_urls: None,
                id: None,
                genres: None,
                images: None,
                popularity: None,
            }),
    {
        ArtistDocument {
            name: None,
            item_type: None,
            external_urls: None,
            id: None,
            genres: None,
            images: None,
            popularity: None,
        }
    }
}

impl Clone for ArtistDocument {
    fn clone(&self) -> (r: Self)
        ensures
            r@ == self@,
    {
        let genres = match &self.genres {
            Some(genres) => Some(genres.clone()),
            None => None,
        };
        let images = match &self.images {
            Some(images) => Some(images.clone()),
            None => None,
        };
        proof {
            if self.genres is Some {
                assert(genres->0@ =~= self.genres->0@);
            }
            if self.images is Some {
                assert(images->0@ =~= self.images->0@);
            }
        }
        ArtistDocument {
            name: self.name.clone(),
            item_type: self.item_type.clone(),
            external_urls: match &self.external_urls {
                Some(entries) => Some(clone_entries(entries)),
                None => None,
            },
            id: self.id.clone(),
            genres,
            images,
            popularity: self.popularity,
        }
    }
}

impl Default for ArtistDocument {
    /// The answer without any field.
    fn default() -> (r: Self)
        ensures
            r@ == (ArtistDocumentView {
                name: None,
                item_type: None,
                external_urls: None,
                id: None,
                genres: None,
                images: None,
                popularity: None,
            }),
    {
        ArtistDocument::new()
    }
}

impl ArtistObject {
    /// Takes the tiers out of an answer of the catalog.
    ///
    /// The answer is refused if it has no name, no type or the type of
    /// another kind of entity, or if its external URLs name a provider
    /// twice. A tier of which a field is absent is recorded as absent; that
    /// is no error.
    pub fn decode(doc: ArtistDocument) -> (r: Result<ArtistObject, DecodeError>)
        ensures
            view_of(r) == doc@.decode(),
    {
        let ArtistDocument { name, item_type, external_urls, id, genres, images, popularity } = doc;
        let name = match name {
            Some(name) => name,
            None => {
                return Err(DecodeError::MissingName);
            },
        };
        let item_type = match item_type {
            Some(item_type) => item_type,
            None => {
                return Err(DecodeError::MissingType);
            },
        };
        if !is_type_artist(item_type.as_str()) {
            return Err(DecodeError::UnexpectedType);
        }
        let external_urls = match external_urls {
            Some(entries) => match ExternalUrls::from_entries(entries) {
                Some(external_urls) => external_urls,
                None => {
                    return Err(DecodeError::MalformedExternalUrls);
                },
            },
            None => ExternalUrls::new(),
        };
        let common = CommonArtistFields::new(name, external_urls);
        let non_local = match id {
            Some(id) => Some(NonLocalArtistFields::new(id)),
            None => None,
        };
        let full = match (genres, images, popularity) {
            (Some(genres), Some(images), Some(popularity)) => Some(
                FullArtistFields::new(genres, images, popularity),
            ),
            _ => None,
        };
        Ok(ArtistObject::new(common, non_local, full))
    }
}

impl Artist {
    /// Makes the artist that an answer of the catalog describes.
    pub fn decode(doc: ArtistDocument) -> (r: Result<Artist, ArtistError>)
        ensures
            view_of(r) == doc@.artist(),
    {
        match ArtistObject::decode(doc) {
            Ok(obj) => match Artist::try_from(obj) {
                Ok(artist) => Ok(artist),
                Err(e) => Err(ArtistError::Tier(e)),
            },
            Err(e) => Err(ArtistError::Schema(e)),
        }
    }

    /// Makes the artists that a sequence of answers describes, in the order
    /// of the answers. If an answer describes no artist, none is made: the
    /// error tells the position of the first such answer, and why it failed.
    pub fn decode_all(docs: Vec<ArtistDocument>) -> (r: Result<Vec<Artist>, BatchError>)
        ensures
            match r {
                Ok(artists) => {
                    &&& artists.len() == docs.len()
                    &&& forall|i: int|
                        0 <= i < docs.len() ==> (#[trigger] docs[i])@.artist() == Ok::<
                            ArtistView,
                            ArtistError,
                        >(artists[i]@)
                },
                Err(e) => {
                    &&& e.index < docs.len()
                    &&& docs[e.index as int]@.artist() == Err::<ArtistView, ArtistError>(e.error)
                    &&& forall|i: int| 0 <= i < e.index ==> (#[trigger] docs[i])@.artist() is Ok
                },
            },
    {
        let mut artists: Vec<Artist> = Vec::with_capacity(docs.len());
        for doc in it: docs
            invariant
                it.seq() == docs@,
                artists.len() == it.index(),
                forall|i: int|
                    0 <= i < it.index() ==> (#[trigger] docs[i])@.artist() == Ok::<
                        ArtistView,
                        ArtistError,
                    >(artists[i]@),
        {
            let index = artists.len();
            match Artist::decode(doc) {
                Ok(artist) => {
                    artists.push(artist);
                },
                Err(error) => {
                    return Err(BatchError { index, error });
                },
            }
        }
        Ok(artists)
    }
}

} // verus!
