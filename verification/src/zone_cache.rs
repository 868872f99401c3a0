//! The cache of zone identifiers: for an API credential and a root domain,
//! the identifier that the provider assigned to the zone. Entries are made on
//! the first successful lookup and are never dropped.

use crate::error::{DnsError, DnsErrorView, text_view};
use crate::text::same_text;
use vstd::prelude::*;

verus! {

/// One cached zone.
#[derive(Clone, Debug, PartialEq, Eq)]
struct ZoneEntry {
    credential: String,
    root: String,
    zone_id: String,
}

/// The (credential, root domain) pair that a zone identifier is filed under.
pub type ZoneKey = (Seq<char>, Seq<char>);

spec fn key_of(entry: ZoneEntry) -> ZoneKey {
    (entry.credential@, entry.root@)
}

/// What a list of entries says, a later entry overriding an earlier one of
/// the same key.
spec fn filed(entries: Seq<ZoneEntry>) -> Map<ZoneKey, Seq<char>>
    decreases entries.len(),
{
    if entries.len() == 0 {
        Map::empty()
    } else {
        filed(entries.drop_last()).insert(key_of(entries.last()), entries.last().zone_id@)
    }
}

/// Whether `a` and `b` agree on `key`: both lack it, or both hold the same
/// identifier for it.
spec fn agree_on(a: Map<ZoneKey, Seq<char>>, b: Map<ZoneKey, Seq<char>>, key: ZoneKey) -> bool {
    a.contains_key(key) == b.contains_key(key) && (a.contains_key(key) ==> a[key] == b[key])
}

/// What a cache holds after a lookup for `key` that ended in `outcome`: the
/// identifier under `key` where the lookup gave one, and what it held before
/// where the lookup failed.
pub open spec fn after_lookup(
    cache: Map<ZoneKey, Seq<char>>,
    key: ZoneKey,
    outcome: Result<Seq<char>, DnsErrorView>,
) -> Map<ZoneKey, Seq<char>> {
    match outcome {
        Ok(zone_id) => cache.insert(key, zone_id),
        Err(e) => cache,
    }
}

/// The zone identifiers known so far, by credential and root domain.
#[derive(Clone, Debug, PartialEq, Eq)]
pub struct ZoneResolutionCache {
    entries: Vec<ZoneEntry>,
}

impl View for ZoneResolutionCache {
    type V = Map<ZoneKey, Seq<char>>;

    closed spec fn view(&self) -> Map<ZoneKey, Seq<char>> {
        filed(self.entries@)
    }
}

impl ZoneResolutionCache {
    /// A cache that knows no zone.
    pub fn new() -> (cache: Self)
        ensures
            cache@ == Map::<ZoneKey, Seq<char>>::empty(),
    {
        ZoneResolutionCache { entries: Vec::new() }
    }

    /// The zone identifier cached for `credential` and `root`, if any.
    pub fn get(&self, credential: &str, root: &str) -> (zone_id: Option<String>)
        ensures
            match zone_id {
                Some(id) => self@.contains_key((credential@, root@)) && id@ == self@[(
                    credential@,
                    root@,
                )],
                None => !self@.contains_key((credential@, root@)),
            },
    {
        let ghost key = (credential@, root@);
        let mut i: usize = self.entries.len();
        proof {
            assert(self.entries@.take(i as int) == self.entries@);
        }
        while i > 0
            invariant
                i <= self.entries@.len(),
                key == (credential@, root@),
                agree_on(filed(self.entries@), filed(self.entries@.take(i as int)), key),
            decreases i,
        {
            proof {
                assert(self.entries@.take(i as int).drop_last() == self.entries@.take(i - 1));
            }
            i = i - 1;
            let entry = &self.entries[i];
            if same_text(entry.credential.as_str(), credential) && same_text(
                entry.root.as_str(),
                root,
            ) {
                return Some(entry.zone_id.clone());
            }
        }
        None
    }

    /// Files `zone_id` under `credential` and `root`, in place of what was
    /// filed there before.
    pub fn insert(&mut self, credential: &str, root: &str, zone_id: String)
        ensures
            final(self)@ == old(self)@.insert((credential@, root@), zone_id@),
    {
        let known = self.get(credential, root);
        let repeated = match &known {
            Some(id) => same_text(id.as_str(), zone_id.as_str()),
            None => false,
        };
        if repeated {
            assert(self@ =~= self@.insert((credential@, root@), zone_id@));
        } else {
            let entry = ZoneEntry {
                credential: String::from_str(credential),
                root: String::from_str(root),
                zone_id,
            };
            proof {
                assert(self.entries@.push(entry).drop_last() == self.entries@);
            }
            self.entries.push(entry);
        }
    }

    /// The zone identifier for `credential` and `root`: the cached one where
    /// there is one, without calling `lookup`; otherwise what `lookup`
    /// returns, which is cached where it is an identifier and propagated
    /// where it is an error.
    pub fn resolve<F: FnOnce() -> Result<String, DnsError>>(
        &mut self,
        credential: &str,
        root: &str,
        lookup: F,
    ) -> (r: Result<String, DnsError>)
        requires
            !old(self)@.contains_key((credential@, root@)) ==> call_requires(lookup, ()),
        ensures
            old(self)@.contains_key((credential@, root@)) ==> text_view(r) == Ok::<
                Seq<char>,
                DnsErrorView,
            >(old(self)@[(credential@, root@)]) && final(self)@ == old(self)@,
            !old(self)@.contains_key((credential@, root@)) ==> call_ensures(lookup, (), r)
                && final(self)@ == after_lookup(old(self)@, (credential@, root@), text_view(r)),
    {
        match self.get(credential, root) {
            Some(zone_id) => Ok(zone_id),
            None => {
                match lookup() {
                    Ok(zone_id) => {
                        self.insert(credential, root, zone_id.clone());
                        Ok(zone_id)
                    },
                    Err(e) => Err(e),
                }
            },
        }
    }
}

/// After a lookup for a key has given an identifier, the cache holds it under
/// that key, so that resolving the same key again needs no lookup.
pub proof fn law_resolved_key_is_cached(
    cache: Map<ZoneKey, Seq<char>>,
    key: ZoneKey,
    zone_id: Seq<char>,
)
    ensures
        after_lookup(cache, key, Ok(zone_id)).contains_key(key),
        after_lookup(cache, key, Ok(zone_id))[key] == zone_id,
{
}

/// A lookup for one key caches nothing under another: a key that the cache
/// did not hold before still needs a lookup of its own.
pub proof fn law_other_key_is_not_cached(
    cache: Map<ZoneKey, Seq<char>>,
    key: ZoneKey,
    other: ZoneKey,
    outcome: Result<Seq<char>, DnsErrorView>,
)
    requires
        other != key,
        !cache.contains_key(other),
    ensures
        !after_lookup(cache, key, outcome).contains_key(other),
{
}

/// A failed lookup leaves the cache as it was.
pub proof fn law_failed_lookup_caches_nothing(
    cache: Map<ZoneKey, Seq<char>>,
    key: ZoneKey,
    error: DnsErrorView,
)
    ensures
        after_lookup(cache, key, Err(error)) == cache,
{
}

} // verus!
