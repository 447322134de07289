//! The links that lead from a catalog entity to other services.

use crate::text::str_eq;
use vstd::prelude::*;
use vstd::seq_lib::seq_to_set_is_finite;
use vstd::std_specs::cmp::PartialEqSpecImpl;

verus! {

/// No provider is named by two entries of the list.
pub open spec fn distinct_providers(entries: Seq<(Seq<char>, Seq<char>)>) -> bool {
    forall|i: int, j: int|
        #![trigger entries[i], entries[j]]
        0 <= i < j < entries.len() ==> entries[i].0 != entries[j].0
}

/// Some entry of the list names the provider.
pub open spec fn names_provider(entries: Seq<(Seq<char>, Seq<char>)>, provider: Seq<char>) -> bool {
    exists|i: int| 0 <= i < entries.len() && (#[trigger] entries[i]).0 == provider
}

/// The position of an entry that names the provider.
pub open spec fn position_of(entries: Seq<(Seq<char>, Seq<char>)>, provider: Seq<char>) -> int {
    choose|i: int| 0 <= i < entries.len() && (#[trigger] entries[i]).0 == provider
}

/// The mapping that a list of `(provider, url)` entries writes down: its
/// domain is the providers that the list names, and each of them is mapped
/// to the URL of an entry that names it. Where the providers are distinct
/// there is one such entry.
pub open spec fn url_map(entries: Seq<(Seq<char>, Seq<char>)>) -> Map<Seq<char>, Seq<char>> {
    Map::new(
        |provider: Seq<char>| names_provider(entries, provider),
        |provider: Seq<char>| entries[position_of(entries, provider)].1,
    )
}

/// Every entry of a list with distinct providers is found in the mapping of
/// the list, under its provider and with its URL.
pub proof fn lemma_url_map_entry(entries: Seq<(Seq<char>, Seq<char>)>, i: int)
    requires
        distinct_providers(entries),
        0 <= i < entries.len(),
    ensures
        url_map(entries).contains_key(entries[i].0),
        url_map(entries)[entries[i].0] == entries[i].1,
{
    let provider = entries[i].0;
    assert(names_provider(entries, provider));
    let c = position_of(entries, provider);
    assert(0 <= c < entries.len() && entries[c].0 == provider);
    assert(c == i);
}

/// The mapping of a list with distinct providers has as many providers as
/// the list has entries.
pub proof fn lemma_url_map_len(entries: Seq<(Seq<char>, Seq<char>)>)
    requires
        distinct_providers(entries),
    ensures
        url_map(entries).dom().finite(),
        url_map(entries).dom().len() == entries.len(),
{
    let providers = entries.map_values(|entry: (Seq<char>, Seq<char>)| entry.0);
    assert(providers.no_duplicates());
    assert forall|provider: Seq<char>| names_provider(entries, provider) implies providers.contains(
        provider,
    ) by {
        let i = position_of(entries, provider);
        assert(providers[i] == provider);
    }
    assert forall|provider: Seq<char>| providers.contains(provider) implies names_provider(
        entries,
        provider,
    ) by {
        let i = choose|i: int| 0 <= i < providers.len() && providers[i] == provider;
        assert(entries[i].0 == provider);
    }
    assert(url_map(entries).dom() =~= providers.to_set());
    providers.unique_seq_to_set();
    seq_to_set_is_finite(providers);
}

/// The external URLs of an entity: a mapping from the name of a provider to
/// the URL under which that provider shows the entity.
///
/// The entries are kept in the order in which they were given, and no
/// provider occurs twice among them.
#[derive(Debug)]
pub struct ExternalUrls {
    entries: Vec<(String, String)>,
}

impl View for ExternalUrls {
    type V = Map<Seq<char>, Seq<char>>;

    closed spec fn view(&self) -> Map<Seq<char>, Seq<char>> {
        url_map(self.entries.deep_view())
    }
}

impl ExternalUrls {
    /// The entries in the order in which they were given.
    pub closed spec fn pairs(&self) -> Seq<(Seq<char>, Seq<char>)> {
        self.entries.deep_view()
    }

    #[verifier::type_invariant]
    closed spec fn well_formed(&self) -> bool {
        distinct_providers(self.entries.deep_view())
    }

    /// The mapping without entries.
    pub fn new() -> (r: Self)
        ensures
            r@ == Map::<Seq<char>, Seq<char>>::empty(),
            r.pairs() == Seq::<(Seq<char>, Seq<char>)>::empty(),
    {
        let r = ExternalUrls { entries: Vec::new() };
        assert(r@ =~= Map::<Seq<char>, Seq<char>>::empty());
        assert(r.pairs() =~= Seq::<(Seq<char>, Seq<char>)>::empty());
        r
    }

    /// Makes the mapping of a list of `(provider, url)` entries. A list that
    /// names a provider twice is no mapping, and gives `None`.
    pub fn from_entries(entries: Vec<(String, String)>) -> (r: Option<Self>)
        ensures
            r is Some <==> distinct_providers(entries.deep_view()),
            r matches Some(urls) ==> urls.pairs() == entries.deep_view() && urls@ == url_map(
                entries.deep_view(),
            ),
    {
        let ghost model = entries.deep_view();
        let n = entries.len();
        let mut i: usize = 0;
        while i < n
            invariant
                n == entries.len(),
                model == entries.deep_view(),
                i <= n,
                forall|a: int, b: int|
                    #![trigger model[a], model[b]]
                    0 <= a < b < i ==> model[a].0 != model[b].0,
            decreases n - i,
        {
            let mut j: usize = 0;
            while j < i
                invariant
                    n == entries.len(),
                    model == entries.deep_view(),
                    i < n,
                    j <= i,
                    forall|a: int| #![trigger model[a]] 0 <= a < j ==> model[a].0 != model[i as int].0,
                decreases i - j,
            {
                if str_eq(entries[j].0.as_str(), entries[i].0.as_str()) {
                    assert(model[j as int].0 == model[i as int].0);
                    return None;
                }
                j += 1;
            }
            i += 1;
        }
        Some(ExternalUrls { entries })
    }

    /// The URL under which the provider shows the entity, if the mapping
    /// names the provider.
    pub fn get(&self, provider: &str) -> (r: Option<&str>)
        ensures
            r is Some <==> self@.contains_key(provider@),
            r matches Some(url) ==> url@ == self@[provider@],
    {
        proof {
            use_type_invariant(self);
        }
        let ghost model = self.entries.deep_view();
        let n = self.entries.len();
        let mut i: usize = 0;
        while i < n
            invariant
                n == self.entries.len(),
                model == self.entries.deep_view(),
                distinct_providers(model),
                i <= n,
                forall|a: int| #![trigger model[a]] 0 <= a < i ==> model[a].0 != provider@,
            decreases n - i,
        {
            if str_eq(self.entries[i].0.as_str(), provider) {
                proof {
                    assert(model[i as int].0 == provider@);
                    lemma_url_map_entry(model, i as int);
                }
                return Some(self.entries[i].1.as_str());
            }
            i += 1;
        }
        assert(!names_provider(model, provider@));
        None
    }

    /// The number of providers that the mapping names.
    pub fn len(&self) -> (r: usize)
        ensures
            self@.dom().finite(),
            r == self@.dom().len(),
            r == self.pairs().len(),
    {
        proof {
            use_type_invariant(self);
            lemma_url_map_len(self.entries.deep_view());
        }
        self.entries.len()
    }

    /// Whether the mapping names no provider.
    pub fn is_empty(&self) -> (r: bool)
        ensures
            r == (self@ == Map::<Seq<char>, Seq<char>>::empty()),
    {
        proof {
            use_type_invariant(self);
            lemma_url_map_len(self.entries.deep_view());
            if self.entries.len() == 0 {
                assert(self@ =~= Map::<Seq<char>, Seq<char>>::empty());
            }
        }
        self.entries.len() == 0
    }

    /// Whether every provider of this mapping has the same URL in the other.
    fn within(&self, other: &ExternalUrls) -> (r: bool)
        ensures
            r == self@.submap_of(other@),
    {
        proof {
            use_type_invariant(self);
        }
        let ghost model = self.entries.deep_view();
        let n = self.entries.len();
        let mut i: usize = 0;
        while i < n
            invariant
                n == self.entries.len(),
                model == self.entries.deep_view(),
                distinct_providers(model),
                i <= n,
                forall|a: int|
                    #![trigger model[a]]
                    0 <= a < i ==> other@.contains_key(model[a].0) && other@[model[a].0]
                        == model[a].1,
            decreases n - i,
        {
            proof {
                lemma_url_map_entry(model, i as int);
            }
            let same = match other.get(self.entries[i].0.as_str()) {
                Some(url) => str_eq(url, self.entries[i].1.as_str()),
                None => false,
            };
            if !same {
                return false;
            }
            i += 1;
        }
        proof {
            assert forall|provider: Seq<char>| self@.contains_key(provider) implies other@.contains_key(
                provider,
            ) && self@[provider] == other@[provider] by {
                let c = position_of(model, provider);
                lemma_url_map_entry(model, c);
            }
        }
        true
    }

    /// The entries in the order in which they were given.
    pub fn entries(&self) -> (r: &[(String, String)])
        ensures
            r.deep_view() == self.pairs(),
            distinct_providers(self.pairs()),
            self@ == url_map(self.pairs()),
    {
        proof {
            use_type_invariant(self);
        }
        let r = self.entries.as_slice();
        assert(r.deep_view() =~= self.pairs());
        r
    }
}

impl Default for ExternalUrls {
    /// The mapping without entries.
    fn default() -> (r: Self)
        ensures
            r@ == Map::<Seq<char>, Seq<char>>::empty(),
            r.pairs() == Seq::<(Seq<char>, Seq<char>)>::empty(),
    {
        ExternalUrls::new()
    }
}

impl PartialEq for ExternalUrls {
    /// Two mappings are equal when they map the same providers to the same
    /// URLs, in whatever order their entries were given.
    fn eq(&self, other: &ExternalUrls) -> (r: bool) {
        let r = self.within(other) && other.within(self);
        proof {
            self@.lemma_submap_eq_iff(other@);
        }
        r
    }
}

impl Eq for ExternalUrls {

}

impl PartialEqSpecImpl for ExternalUrls {
    open spec fn obeys_eq_spec() -> bool {
        true
    }

    open spec fn eq_spec(&self, other: &ExternalUrls) -> bool {
        self@ == other@
    }
}

impl Clone for ExternalUrls {
    fn clone(&self) -> (r: Self)
        ensures
            r@ == self@,
            r.pairs() == self.pairs(),
    {
        proof {
            use_type_invariant(self);
        }
        ExternalUrls { entries: clone_entries(&self.entries) }
    }
}

/// A copy of a list of `(provider, url)` entries.
pub(crate) fn clone_entries(entries: &Vec<(String, String)>) -> (r: Vec<(String, String)>)
    ensures
        r@ == entries@,
        r.deep_view() == entries.deep_view(),
{
    let n = entries.len();
    let mut copy: Vec<(String, String)> = Vec::with_capacity(n);
    let mut i: usize = 0;
    while i < n
        invariant
            n == entries.len(),
            i <= n,
            copy.len() == i,
            forall|a: int| 0 <= a < i ==> copy@[a] == entries@[a],
        decreases n - i,
    {
        let provider = entries[i].0.clone();
        let url = entries[i].1.clone();
        copy.push((provider, url));
        i += 1;
    }
    assert(copy@ =~= entries@);
    assert(copy.deep_view() =~= entries.deep_view());
    copy
}

} // verus!
