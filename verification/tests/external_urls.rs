use ferrispot::model::{ExternalUrls, Image};

fn entries(pairs: &[(&str, &str)]) -> Vec<(String, String)> {
    pairs.iter().map(|(p, u)| (p.to_string(), u.to_string())).collect()
}

fn urls(pairs: &[(&str, &str)]) -> ExternalUrls {
    ExternalUrls::from_entries(entries(pairs)).unwrap()
}

#[test]
fn the_new_mapping_is_empty() {
    let empty = ExternalUrls::new();
    assert!(empty.is_empty());
    assert_eq!(empty.len(), 0);
    assert_eq!(empty.get("spotify"), None);
    assert_eq!(empty.get(""), None);
    assert!(empty.entries().is_empty());
    assert_eq!(empty, ExternalUrls::default());
    assert_eq!(ExternalUrls::from_entries(vec![]), Some(empty));
}

#[test]
fn a_mapping_gives_each_provider_its_url() {
    let m = urls(&[("spotify", "https://a.example"), ("web", "https://b.example"), ("", "https://c.example")]);
    assert!(!m.is_empty());
    assert_eq!(m.len(), 3);
    assert_eq!(m.get("spotify"), Some("https://a.example"));
    assert_eq!(m.get("web"), Some("https://b.example"));
    assert_eq!(m.get(""), Some("https://c.example"));
    assert_eq!(m.get("Spotify"), None);
    assert_eq!(m.get("spotif"), None);
    assert_eq!(m.get("spotify "), None);
    assert_eq!(m.get("https://a.example"), None);
}

#[test]
fn providers_are_compared_character_by_character() {
    let m = urls(&[("café", "1"), ("cafe", "2"), ("cafè", "3"), ("日本", "4"), ("日本語", "5")]);
    assert_eq!(m.len(), 5);
    assert_eq!(m.get("café"), Some("1"));
    assert_eq!(m.get("cafe"), Some("2"));
    assert_eq!(m.get("cafè"), Some("3"));
    assert_eq!(m.get("日本"), Some("4"));
    assert_eq!(m.get("日本語"), Some("5"));
    assert_eq!(m.get("日"), None);
    assert_eq!(m.get("caf"), None);
}

#[test]
fn a_list_that_names_a_provider_twice_is_no_mapping() {
    assert_eq!(ExternalUrls::from_entries(entries(&[("a", "1"), ("a", "2")])), None);
    assert_eq!(ExternalUrls::from_entries(entries(&[("a", "1"), ("a", "1")])), None);
    assert_eq!(ExternalUrls::from_entries(entries(&[("a", "1"), ("b", "2"), ("c", "3"), ("a", "4")])), None);
    assert_eq!(ExternalUrls::from_entries(entries(&[("a", "1"), ("b", "2"), ("c", "3"), ("c", "4")])), None);
    assert_eq!(ExternalUrls::from_entries(entries(&[("", "1"), ("", "2")])), None);
    assert!(ExternalUrls::from_entries(entries(&[("a", "1"), ("b", "1"), ("c", "1")])).is_some());
}

#[test]
fn the_entries_keep_their_order() {
    let given = entries(&[("web", "https://b.example"), ("spotify", "https://a.example")]);
    let m = ExternalUrls::from_entries(given.clone()).unwrap();
    assert_eq!(m.entries(), given.as_slice());
    assert_eq!(m.entries().len(), m.len());
}

#[test]
fn equal_mappings_may_differ_in_the_order_of_their_entries() {
    let a = urls(&[("spotify", "https://a.example"), ("web", "https://b.example")]);
    let b = urls(&[("web", "https://b.example"), ("spotify", "https://a.example")]);
    assert_eq!(a, b);
    assert_eq!(b, a);
    assert_eq!(a, a.clone());
}

#[test]
fn mappings_that_differ_in_a_provider_or_a_url_differ() {
    let a = urls(&[("spotify", "https://a.example"), ("web", "https://b.example")]);
    assert_ne!(a, urls(&[("spotify", "https://a.example"), ("web", "https://c.example")]));
    assert_ne!(a, urls(&[("spotify", "https://a.example"), ("wex", "https://b.example")]));
    assert_ne!(a, urls(&[("spotify", "https://a.example")]));
    assert_ne!(urls(&[("spotify", "https://a.example")]), a);
    assert_ne!(a, urls(&[("spotify", "https://a.example"), ("web", "https://b.example"), ("x", "y")]));
    assert_ne!(a, ExternalUrls::new());
    assert_ne!(ExternalUrls::new(), a);
}

#[test]
fn a_copied_mapping_has_the_same_entries() {
    let a = urls(&[("spotify", "https://a.example"), ("web", "https://b.example")]);
    let b = a.clone();
    assert_eq!(b.entries(), a.entries());
    assert_eq!(b.get("web"), Some("https://b.example"));
    assert_eq!(b.len(), 2);
}

#[test]
fn a_copied_image_equals_the_original() {
    let image = Image { url: "https://img.example/ü".to_string(), width: 640, height: 480 };
    let copy = image.clone();
    assert_eq!(copy, image);
    assert_eq!(copy.url, "https://img.example/ü");
    assert_eq!(copy.width, 640);
    assert_eq!(copy.height, 480);
    assert_ne!(Image { width: 641, ..image.clone() }, image);
    assert_ne!(Image { height: 0, ..image.clone() }, image);
    assert_ne!(Image { url: "https://img.example/u".to_string(), ..image.clone() }, image);
}
