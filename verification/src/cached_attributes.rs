//! A cache for difficulty attributes. Calculating them is slow on long
//! maps, and one list often holds the same map with the same mods more
//! than once.

use crate::mods::{copy_mods, mods_equal, same_mods};
use rosu_pp::any::DifficultyAttributes;
use rosu_pp::Beatmap;
use rosu_v2::model::mods::GameMods;
use vstd::prelude::*;

verus! {

/// `rosu_pp::any::DifficultyAttributes`, what a difficulty calculation
/// brings. Its inside is not looked into here.
#[verifier::external_type_specification]
#[verifier::external_body]
pub struct ExDifficultyAttributes(DifficultyAttributes);

/// Whether the map looks made to strain a calculator rather than to be
/// played.
pub uninterp spec fn map_suspicious(map: Beatmap) -> bool;

/// `Beatmap::check_suspicion`: an error where the hit objects look too
/// suspicious to calculate on. The result depends on the map alone.
#[verifier::external_body]
fn too_suspicious(map: &Beatmap) -> (suspicious: bool)
    ensures
        suspicious == map_suspicious(*map),
{
    map.check_suspicion().is_err()
}

/// `Difficulty::calculate` on `Difficulty::new()` with the given mods and
/// client. Nothing is claimed of the attributes.
#[verifier::external_body]
fn calculate(map: &Beatmap, mods: &GameMods, lazer: bool) -> DifficultyAttributes
    requires
        !map_suspicious(*map),
{
    rosu_pp::Difficulty::new().mods(mods.clone()).lazer(lazer).calculate(map)
}

/// `DifficultyAttributes`' `clone`: a copy that is the same value.
#[verifier::external_body]
fn copy_attrs(attrs: &DifficultyAttributes) -> (copy: DifficultyAttributes)
    ensures
        copy == *attrs,
{
    attrs.clone()
}

/// What attributes are cached under: the map's id, the mods, and the
/// client that the score was set on.
pub struct CacheKey {
    pub map_id: u32,
    pub mods: GameMods,
    pub lazer: bool,
}

pub struct CachedEntry {
    pub map_id: u32,
    pub lazer: bool,
    pub mods: GameMods,
    pub attrs: DifficultyAttributes,
}

impl CachedEntry {
    /// Whether the entry is the one for `key`.
    pub open spec fn is_for(self, key: CacheKey) -> bool {
        self.map_id == key.map_id && mods_equal(self.mods, key.mods) && self.lazer == key.lazer
    }

    /// The key that the entry was stored under.
    pub open spec fn key(self) -> CacheKey {
        CacheKey { map_id: self.map_id, mods: self.mods, lazer: self.lazer }
    }
}

/// Whether `entries[i]` is the first entry for `key`.
pub open spec fn is_entry_at(entries: Seq<CachedEntry>, key: CacheKey, i: int) -> bool {
    &&& 0 <= i < entries.len()
    &&& entries[i].is_for(key)
    &&& forall|j: int| 0 <= j < i ==> !(#[trigger] entries[j]).is_for(key)
}

/// The first entry for `key`.
pub open spec fn cached(entries: Seq<CachedEntry>, key: CacheKey) -> Option<CachedEntry> {
    if exists|i: int| is_entry_at(entries, key, i) {
        Some(entries[choose|i: int| is_entry_at(entries, key, i)])
    } else {
        None
    }
}

/// No entry stands behind another one that answers for its key.
pub open spec fn one_per_key(entries: Seq<CachedEntry>) -> bool {
    forall|i: int, j: int|
        0 <= i < j < entries.len() ==> !(#[trigger] entries[i]).is_for((#[trigger] entries[j]).key())
}

/// Whether a lookup of `key` calculates: nothing is cached for it, and the
/// map passes the guard.
pub open spec fn calculates(entries: Seq<CachedEntry>, map: Beatmap, key: CacheKey) -> bool {
    cached(entries, key) is None && !map_suspicious(map)
}

/// Whether `after` is what a lookup of `key` on `map` leaves of `before`,
/// the lookup having answered `result`.
pub open spec fn looked_up(
    before: Seq<CachedEntry>,
    map: Beatmap,
    key: CacheKey,
    after: Seq<CachedEntry>,
    result: Option<DifficultyAttributes>,
) -> bool {
    match cached(before, key) {
        Some(entry) => after == before && result == Some(entry.attrs),
        None => if map_suspicious(map) {
            after == before && result is None
        } else {
            &&& result is Some
            &&& after == before.push(
                CachedEntry {
                    map_id: key.map_id,
                    lazer: key.lazer,
                    mods: key.mods,
                    attrs: result.unwrap(),
                },
            )
        },
    }
}

pub struct CachedAttributes {
    entries: Vec<CachedEntry>,
}

impl View for CachedAttributes {
    type V = Seq<CachedEntry>;

    closed spec fn view(&self) -> Seq<CachedEntry> {
        self.entries@
    }
}

impl Default for CachedAttributes {
    fn default() -> (cache: Self)
        ensures
            cache@.len() == 0,
    {
        CachedAttributes::new()
    }
}

impl CachedAttributes {
    #[verifier::type_invariant]
    spec fn inv(self) -> bool {
        one_per_key(self.entries@)
    }

    /// An empty cache.
    pub fn new() -> (cache: Self)
        ensures
            cache@.len() == 0,
    {
        CachedAttributes { entries: Vec::new() }
    }

    /// The number of entries.
    pub fn len(&self) -> (len: usize)
        ensures
            len == self@.len(),
            one_per_key(self@),
    {
        proof {
            use_type_invariant(self);
        }
        self.entries.len()
    }

    fn find(&self, key: &CacheKey) -> (found: Option<usize>)
        ensures
            found.is_some() == cached(self@, *key).is_some(),
            found matches Some(i) ==> is_entry_at(self@, *key, i as int) && cached(self@, *key)
                == Some(self@[i as int]),
    {
        let mut i: usize = 0;
        while i < self.entries.len()
            invariant
                i <= self.entries@.len(),
                forall|j: int| 0 <= j < i ==> !(#[trigger] self.entries@[j]).is_for(*key),
            decreases self.entries.len() - i,
        {
            let entry = &self.entries[i];
            if entry.map_id == key.map_id && same_mods(&entry.mods, &key.mods) && entry.lazer
                == key.lazer {
                assert(is_entry_at(self@, *key, i as int));
                proof {
                    let k = choose|k: int| is_entry_at(self@, *key, k);
                    assert(k == i);
                }
                return Some(i);
            }
            i = i + 1;
        }
        assert forall|k: int| !is_entry_at(self@, *key, k) by {}
        None
    }

    /// The attributes of `map` under `key`. What is cached is handed out
    /// again. Otherwise, a map that trips the guard gets no attributes and
    /// no entry; any other map has its attributes calculated, stored and
    /// handed out.
    pub fn get(&mut self, map: &Beatmap, key: &CacheKey) -> (attrs: Option<DifficultyAttributes>)
        ensures
            looked_up(old(self)@, *map, *key, final(self)@, attrs),
            one_per_key(final(self)@),
    {
        proof {
            use_type_invariant(&*self);
        }
        match self.find(key) {
            Some(i) => {
                return Some(copy_attrs(&self.entries[i].attrs));
            },
            None => {},
        }
        if too_suspicious(map) {
            return None;
        }
        let mods = copy_mods(&key.mods);
        let attrs = calculate(map, &mods, key.lazer);
        let copy = copy_attrs(&attrs);
        let entry = CachedEntry { map_id: key.map_id, lazer: key.lazer, mods, attrs };
        let mut entries: Vec<CachedEntry> = Vec::new();
        std::mem::swap(&mut self.entries, &mut entries);
        proof {
            let before = entries@;
            let after = before.push(entry);
            assert forall|i: int, j: int| 0 <= i < j < after.len() implies !(#[trigger] after[i]).is_for(
                (#[trigger] after[j]).key(),
            ) by {
                if j == before.len() {
                    assert(after[j].key() == *key);
                    if before[i].is_for(*key) {
                        assert(exists|k: int| is_entry_at(before, *key, k)) by {
                            lemma_first_entry(before, *key, i);
                        }
                    }
                } else {
                    assert(after[i] == before[i] && after[j] == before[j]);
                }
            }
        }
        entries.push(entry);
        self.entries = entries;
        Some(copy)
    }
}

/// Where some entry answers for `key`, a first one does.
pub proof fn lemma_first_entry(entries: Seq<CachedEntry>, key: CacheKey, i: int)
    requires
        0 <= i < entries.len(),
        entries[i].is_for(key),
    ensures
        exists|k: int| is_entry_at(entries, key, k),
    decreases i,
{
    if exists|j: int| 0 <= j < i && (#[trigger] entries[j]).is_for(key) {
        let j = choose|j: int| 0 <= j < i && (#[trigger] entries[j]).is_for(key);
        lemma_first_entry(entries, key, j);
    } else {
        assert(is_entry_at(entries, key, i));
    }
}

/// A second lookup under the same key calculates nothing and answers what
/// the first one answered; where the first one calculated, it is the only
/// calculation of the two. This holds of every key whose mods compare equal
/// to themselves.
pub proof fn lemma_second_lookup_hits(
    before: Seq<CachedEntry>,
    map: Beatmap,
    key: CacheKey,
    between: Seq<CachedEntry>,
    first: Option<DifficultyAttributes>,
    after: Seq<CachedEntry>,
    second: Option<DifficultyAttributes>,
)
    requires
        mods_equal(key.mods, key.mods),
        !map_suspicious(map),
        looked_up(before, map, key, between, first),
        looked_up(between, map, key, after, second),
    ensures
        !calculates(between, map, key),
        after == between,
        second == first,
        first is Some,
        between.len() == before.len() + (if calculates(before, map, key) {
            1nat
        } else {
            0nat
        }),
{
    if cached(before, key) is None {
        let entry = CachedEntry {
            map_id: key.map_id,
            lazer: key.lazer,
            mods: key.mods,
            attrs: first.unwrap(),
        };
        let last = before.len() as int;
        assert(between[last] == entry);
        assert forall|j: int| 0 <= j < last implies !(#[trigger] between[j]).is_for(key) by {
            if between[j].is_for(key) {
                assert(between[j] == before[j]);
                lemma_first_entry(before, key, j);
            }
        }
        assert(is_entry_at(between, key, last));
        let k = choose|k: int| is_entry_at(between, key, k);
        assert(k == last);
    }
}

/// A map that trips the guard gets no attributes, however often it is
/// looked up, and no entry is ever stored for it.
pub proof fn lemma_suspicious_is_never_cached(
    before: Seq<CachedEntry>,
    map: Beatmap,
    key: CacheKey,
    between: Seq<CachedEntry>,
    first: Option<DifficultyAttributes>,
    after: Seq<CachedEntry>,
    second: Option<DifficultyAttributes>,
)
    requires
        map_suspicious(map),
        cached(before, key) is None,
        looked_up(before, map, key, between, first),
        looked_up(between, map, key, after, second),
    ensures
        first is None,
        second is None,
        between == before,
        after == before,
{
}

} // verus!
