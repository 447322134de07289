use ferrispot::error::{ArtistError, BatchError, DecodeError, TierError};
use ferrispot::model::artist::{
    Artist, ArtistDocument, ArtistObject, CommonArtistInformation, FullArtist,
    FullArtistInformation, LocalArtist, NonLocalArtistInformation, PartialArtist,
};
use ferrispot::model::object_type::{is_type_artist, TYPE_ARTIST};
use ferrispot::model::{Image, Tier};

fn local_doc(name: &str) -> ArtistDocument {
    ArtistDocument {
        name: Some(name.to_string()),
        item_type: Some("artist".to_string()),
        ..ArtistDocument::default()
    }
}

fn partial_doc(name: &str, id: &str) -> ArtistDocument {
    ArtistDocument { id: Some(id.to_string()), ..local_doc(name) }
}

fn full_doc(name: &str, id: &str, popularity: u32) -> ArtistDocument {
    ArtistDocument {
        genres: Some(vec!["jazz".to_string()]),
        images: Some(vec![Image { url: "https://img.example/a".to_string(), width: 64, height: 48 }]),
        popularity: Some(popularity),
        ..partial_doc(name, id)
    }
}

fn entries(pairs: &[(&str, &str)]) -> Vec<(String, String)> {
    pairs.iter().map(|(p, u)| (p.to_string(), u.to_string())).collect()
}

#[test]
fn the_empty_document_has_no_field() {
    let doc = ArtistDocument::new();
    assert_eq!(doc, ArtistDocument::default());
    assert_eq!(doc.name, None);
    assert_eq!(doc.item_type, None);
    assert_eq!(doc.external_urls, None);
    assert_eq!(doc.id, None);
    assert_eq!(doc.genres, None);
    assert_eq!(doc.images, None);
    assert_eq!(doc.popularity, None);
}

#[test]
fn a_copied_document_decodes_as_the_original() {
    let doc = ArtistDocument {
        external_urls: Some(entries(&[("spotify", "https://a.example"), ("web", "https://b.example")])),
        ..full_doc("Nina", "n1", 88)
    };
    let copy = doc.clone();
    assert_eq!(copy, doc);
    assert_eq!(Artist::decode(copy), Artist::decode(doc));
}

#[test]
fn missing_type_is_a_schema_error() {
    let doc = ArtistDocument { item_type: None, ..full_doc("A", "1", 3) };
    assert_eq!(ArtistObject::decode(doc.clone()), Err(DecodeError::MissingType));
    assert_eq!(Artist::decode(doc), Err(ArtistError::Schema(DecodeError::MissingType)));
}

#[test]
fn the_type_of_another_entity_is_a_schema_error() {
    for tag in ["track", "album", "", "Artist", "artis", "artists", " artist", "ärtist"] {
        let doc = ArtistDocument { item_type: Some(tag.to_string()), ..full_doc("A", "1", 3) };
        assert_eq!(
            Artist::decode(doc),
            Err(ArtistError::Schema(DecodeError::UnexpectedType)),
            "tag {:?}",
            tag
        );
    }
}

#[test]
fn a_provider_named_twice_is_a_schema_error() {
    let doc = ArtistDocument {
        external_urls: Some(entries(&[
            ("spotify", "https://a.example"),
            ("web", "https://b.example"),
            ("spotify", "https://c.example"),
        ])),
        ..local_doc("A")
    };
    assert_eq!(ArtistObject::decode(doc.clone()), Err(DecodeError::MalformedExternalUrls));
    assert_eq!(Artist::decode(doc), Err(ArtistError::Schema(DecodeError::MalformedExternalUrls)));
}

#[test]
fn a_provider_named_twice_with_one_url_is_a_schema_error_too() {
    let doc = ArtistDocument {
        external_urls: Some(entries(&[("web", "https://b.example"), ("web", "https://b.example")])),
        ..local_doc("A")
    };
    assert_eq!(Artist::decode(doc), Err(ArtistError::Schema(DecodeError::MalformedExternalUrls)));
}

#[test]
fn the_first_field_that_fails_decides_the_error() {
    let twice = Some(entries(&[("a", "1"), ("a", "2")]));
    let doc = ArtistDocument {
        name: None,
        item_type: None,
        external_urls: twice.clone(),
        ..ArtistDocument::default()
    };
    assert_eq!(ArtistObject::decode(doc), Err(DecodeError::MissingName));
    let doc = ArtistDocument {
        name: Some("A".to_string()),
        item_type: None,
        external_urls: twice.clone(),
        ..ArtistDocument::default()
    };
    assert_eq!(ArtistObject::decode(doc), Err(DecodeError::MissingType));
    let doc = ArtistDocument {
        name: Some("A".to_string()),
        item_type: Some("track".to_string()),
        external_urls: twice.clone(),
        ..ArtistDocument::default()
    };
    assert_eq!(ArtistObject::decode(doc), Err(DecodeError::UnexpectedType));
    let doc = ArtistDocument {
        name: Some("A".to_string()),
        item_type: Some("artist".to_string()),
        external_urls: twice,
        ..ArtistDocument::default()
    };
    assert_eq!(ArtistObject::decode(doc), Err(DecodeError::MalformedExternalUrls));
}

#[test]
fn a_schema_error_comes_before_a_tier_error() {
    let doc = ArtistDocument { name: None, id: None, ..full_doc("A", "1", 3) };
    assert_eq!(Artist::decode(doc), Err(ArtistError::Schema(DecodeError::MissingName)));
}

#[test]
fn absent_external_urls_are_the_empty_mapping() {
    let local = LocalArtist::from(Artist::decode(local_doc("A")).unwrap());
    assert!(local.external_urls().is_empty());
    assert_eq!(local.external_urls().len(), 0);
    assert_eq!(local.external_urls().get("spotify"), None);
    let explicit = ArtistDocument { external_urls: Some(vec![]), ..local_doc("A") };
    let explicit = LocalArtist::from(Artist::decode(explicit).unwrap());
    assert_eq!(explicit, local);
}

#[test]
fn an_empty_name_is_a_name() {
    let local = LocalArtist::from(Artist::decode(local_doc("")).unwrap());
    assert_eq!(local.name(), "");
}

#[test]
fn an_incomplete_full_tier_is_absent() {
    let only_genres = ArtistDocument { genres: Some(vec!["jazz".to_string()]), ..partial_doc("A", "1") };
    assert!(matches!(Artist::decode(only_genres), Ok(Artist::Partial(_))));
    let no_popularity = ArtistDocument { popularity: None, ..full_doc("A", "1", 3) };
    assert!(matches!(Artist::decode(no_popularity), Ok(Artist::Partial(_))));
    let no_images = ArtistDocument { images: None, ..full_doc("A", "1", 3) };
    assert!(matches!(Artist::decode(no_images), Ok(Artist::Partial(_))));
    let no_genres = ArtistDocument { genres: None, id: None, ..full_doc("A", "1", 3) };
    assert!(matches!(Artist::decode(no_genres), Ok(Artist::Local(_))));
}

#[test]
fn popularity_is_kept_as_it_came() {
    for popularity in [0, 1, 50, 100, 101, u32::MAX] {
        let full = FullArtist::try_from(Artist::decode(full_doc("A", "1", popularity)).unwrap()).unwrap();
        assert_eq!(full.popularity(), popularity);
    }
}

#[test]
fn an_answer_with_all_tiers_becomes_a_full_artist_only() {
    let obj = ArtistObject::decode(full_doc("A", "1", 3)).unwrap();
    let full = FullArtist::try_from(obj.clone()).unwrap();
    assert_eq!(full.name(), "A");
    assert_eq!(full.id(), "1");
    assert_eq!(full.genres(), ["jazz".to_string()]);
    assert_eq!(full.images()[0].height, 48);
    assert_eq!(Artist::try_from(obj.clone()), Ok(Artist::Full(Box::new(full))));
    assert_eq!(
        PartialArtist::try_from(obj.clone()),
        Err(TierError::UnsupportedNarrowing { found: Tier::Full, wanted: Tier::Partial })
    );
    assert_eq!(
        LocalArtist::try_from(obj),
        Err(TierError::UnsupportedNarrowing { found: Tier::Full, wanted: Tier::Local })
    );
}

#[test]
fn an_answer_without_full_tier_becomes_a_partial_artist_only() {
    let obj = ArtistObject::decode(partial_doc("A", "1")).unwrap();
    let partial = PartialArtist::try_from(obj.clone()).unwrap();
    assert_eq!(partial.name(), "A");
    assert_eq!(partial.id(), "1");
    assert_eq!(Artist::try_from(obj.clone()), Ok(Artist::Partial(Box::new(partial))));
    assert_eq!(
        FullArtist::try_from(obj.clone()),
        Err(TierError::UnsupportedNarrowing { found: Tier::Partial, wanted: Tier::Full })
    );
    assert_eq!(
        LocalArtist::try_from(obj),
        Err(TierError::UnsupportedNarrowing { found: Tier::Partial, wanted: Tier::Local })
    );
}

#[test]
fn an_answer_with_the_common_tier_alone_becomes_a_local_artist_only() {
    let obj = ArtistObject::decode(local_doc("A")).unwrap();
    let local = LocalArtist::try_from(obj.clone()).unwrap();
    assert_eq!(local.name(), "A");
    assert_eq!(Artist::try_from(obj.clone()), Ok(Artist::Local(Box::new(local))));
    assert_eq!(
        FullArtist::try_from(obj.clone()),
        Err(TierError::UnsupportedNarrowing { found: Tier::Local, wanted: Tier::Full })
    );
    assert_eq!(
        PartialArtist::try_from(obj),
        Err(TierError::UnsupportedNarrowing { found: Tier::Local, wanted: Tier::Partial })
    );
}

#[test]
fn a_sequence_of_answers_becomes_the_artists_in_order() {
    let docs = vec![full_doc("A", "1", 3), local_doc("B"), partial_doc("C", "3"), local_doc("D")];
    let artists = Artist::decode_all(docs.clone()).unwrap();
    assert_eq!(artists.len(), 4);
    let tiers: Vec<Tier> = artists.iter().map(|a| a.tier()).collect();
    assert_eq!(tiers, vec![Tier::Full, Tier::Local, Tier::Partial, Tier::Local]);
    for (doc, artist) in docs.into_iter().zip(artists.iter()) {
        assert_eq!(Artist::decode(doc).as_ref(), Ok(artist));
    }
    let names: Vec<String> =
        artists.into_iter().map(|a| LocalArtist::from(a).name().to_string()).collect();
    assert_eq!(names, vec!["A", "B", "C", "D"]);
}

#[test]
fn no_answers_become_no_artists() {
    assert_eq!(Artist::decode_all(vec![]), Ok(vec![]));
}

#[test]
fn the_first_answer_that_fails_stops_the_sequence() {
    let invalid = ArtistDocument { id: None, ..full_doc("C", "3", 3) };
    let nameless = ArtistDocument { name: None, ..local_doc("D") };
    let docs = vec![full_doc("A", "1", 3), local_doc("B"), invalid.clone(), nameless.clone()];
    assert_eq!(
        Artist::decode_all(docs),
        Err(BatchError { index: 2, error: ArtistError::Tier(TierError::InvalidTierCombination) })
    );
    let docs = vec![nameless, invalid];
    assert_eq!(
        Artist::decode_all(docs),
        Err(BatchError { index: 0, error: ArtistError::Schema(DecodeError::MissingName) })
    );
}

#[test]
fn a_copied_artist_equals_the_original() {
    for doc in [full_doc("A", "1", 3), partial_doc("B", "2"), local_doc("C")] {
        let artist = Artist::decode(doc).unwrap();
        let copy = artist.clone();
        assert_eq!(copy, artist);
        assert_eq!(copy.tier(), artist.tier());
    }
    let obj = ArtistObject::decode(full_doc("A", "1", 3)).unwrap();
    assert_eq!(obj.clone(), obj);
}

#[test]
fn artists_that_differ_in_one_field_differ() {
    let base = Artist::decode(full_doc("A", "1", 3)).unwrap();
    assert_ne!(Artist::decode(full_doc("B", "1", 3)).unwrap(), base);
    assert_ne!(Artist::decode(full_doc("A", "2", 3)).unwrap(), base);
    assert_ne!(Artist::decode(full_doc("A", "1", 4)).unwrap(), base);
    assert_ne!(Artist::decode(partial_doc("A", "1")).unwrap(), base);
    let linked = ArtistDocument {
        external_urls: Some(entries(&[("web", "https://b.example")])),
        ..full_doc("A", "1", 3)
    };
    assert_ne!(Artist::decode(linked).unwrap(), base);
}

#[test]
fn the_tag_of_an_artist_is_artist() {
    assert_eq!(TYPE_ARTIST, "artist");
    assert!(is_type_artist("artist"));
    assert!(is_type_artist(TYPE_ARTIST));
    assert!(!is_type_artist("track"));
    assert!(!is_type_artist(""));
    assert!(!is_type_artist("artist "));
    assert!(!is_type_artist("ARTIST"));
    assert!(!is_type_artist("artisu"));
}
