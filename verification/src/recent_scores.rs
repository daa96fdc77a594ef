//! The entries of the list of recent plays: which plays it takes in, which
//! it keeps where each map is to show once, and how it orders them.

use crate::badges::latest_first;
use crate::interaction::SingleBits;
use crate::mods::{mods_equal, same_mods, GameMode};
use crate::recent_list::{GradeOption, ScoreOrder};
use crate::sorting::{arranged, descending, is_stable_order, pair_le, sort_by_key};
use rosu_v2::model::mods::GameMods;
use vstd::prelude::*;

verus! {

/// The number of mods in a combination.
pub uninterp spec fn mods_count(mods: GameMods) -> nat;

/// `GameMods::len`: the number of mods.
#[verifier::external_body]
fn mods_len(mods: &GameMods) -> (len: usize)
    ensures
        len == mods_count(*mods),
{
    mods.len()
}

/// What the filter reads of a play.
pub struct ScoreFacts {
    /// Whether the play meets the query; true where there is no query.
    pub matches_query: bool,
    pub passed: bool,
    /// Whether the play has the letter of the grade that is asked for.
    pub has_grade: bool,
    /// Whether the play has the mods that are asked for; true where none
    /// are asked for.
    pub matches_mods: bool,
}

/// Whether the list takes a play in: it meets the query and the mods, and
/// it has the grade that is asked for (failed, for the grade of a fail);
/// where no grade is asked for, it passed or failed as is asked for.
pub open spec fn takes_in(grade: Option<GradeOption>, passes: Option<bool>, facts: ScoreFacts)
    -> bool {
    &&& facts.matches_query
    &&& match grade {
        Some(GradeOption::F) => !facts.passed,
        Some(_) => facts.has_grade,
        None => match passes {
            Some(p) => p == facts.passed,
            None => true,
        },
    }
    &&& facts.matches_mods
}

/// Decides whether the list takes a play in.
pub fn score_filter(grade: Option<GradeOption>, passes: Option<bool>, facts: &ScoreFacts) -> (taken:
    bool)
    ensures
        taken == takes_in(grade, passes, *facts),
{
    if !facts.matches_query {
        return false;
    }
    let grade_res = match grade {
        Some(GradeOption::F) => !facts.passed,
        Some(_) => facts.has_grade,
        None => match passes {
            Some(p) => p == facts.passed,
            None => true,
        },
    };
    if !grade_res {
        return false;
    }
    facts.matches_mods
}

/// Whether the points of a play are also the most that the map gives: the
/// play has points, a full grade, and is not a mania play.
pub fn own_pp_is_max(has_pp: bool, full_grade: bool, mode: GameMode) -> (own: bool)
    ensures
        own == (has_pp && full_grade && mode != GameMode::Mania),
{
    has_pp && full_grade && !matches!(mode, GameMode::Mania)
}

/// A play, with what the list reads of it.
pub struct ScoreSlim {
    pub mods: GameMods,
    pub score: u32,
    pub max_combo: u32,
    /// When the play ended, in seconds since 1970.
    pub ended_at: i64,
    pub pp: SingleBits,
    pub accuracy: SingleBits,
}

pub struct RecentListEntry {
    /// The place of the play among the plays that were fetched.
    pub idx: usize,
    pub score: ScoreSlim,
    pub map_id: u32,
    pub stars: SingleBits,
    pub max_pp: SingleBits,
    pub max_combo: u32,
}

impl ScoreOrder {
    /// The key by which an entry is ordered, for the orders that go by a
    /// whole number: the greatest combo, the latest play, the most mods or
    /// the highest score first. The other orders go by decimals or by the
    /// map, and are the caller's.
    pub open spec fn key(self, entry: RecentListEntry) -> Option<u64> {
        match self {
            ScoreOrder::Combo => Some(descending(entry.score.max_combo as u64)),
            ScoreOrder::Date => Some(latest_first(entry.score.ended_at)),
            ScoreOrder::ModsCount => Some(descending(mods_count(entry.score.mods) as u64)),
            ScoreOrder::Score => Some(descending(entry.score.score as u64)),
            _ => None,
        }
    }

    pub open spec fn keys(self, entries: Seq<RecentListEntry>) -> Seq<u64> {
        Seq::new(entries.len(), |i: int| self.key(entries[i]).unwrap())
    }

    fn key_of(self, entry: &RecentListEntry) -> (key: Option<u64>)
        ensures
            key == self.key(*entry),
    {
        match self {
            ScoreOrder::Combo => Some(u64::MAX - entry.score.max_combo as u64),
            ScoreOrder::Date => Some(date_key(entry.score.ended_at)),
            ScoreOrder::ModsCount => Some(u64::MAX - mods_len(&entry.score.mods) as u64),
            ScoreOrder::Score => Some(u64::MAX - entry.score.score as u64),
            _ => None,
        }
    }

    /// Whether `first` may stand before `second` in this order.
    pub open spec fn in_order(self, first: RecentListEntry, second: RecentListEntry) -> bool {
        match self {
            ScoreOrder::Combo => first.score.max_combo >= second.score.max_combo,
            ScoreOrder::Date => first.score.ended_at >= second.score.ended_at,
            ScoreOrder::ModsCount => mods_count(first.score.mods) as u64 >= mods_count(
                second.score.mods,
            ) as u64,
            ScoreOrder::Score => first.score.score >= second.score.score,
            _ => true,
        }
    }

    /// Whether the entries stand in this order.
    pub open spec fn ordered(self, entries: Seq<RecentListEntry>) -> bool {
        forall|a: int, b: int|
            0 <= a < b < entries.len() ==> self.in_order(
                #[trigger] entries[a],
                #[trigger] entries[b],
            )
    }

    /// Orders the entries, entries that are equal in the order keeping
    /// their places; an order that goes by no whole number leaves them as
    /// they are.
    pub fn apply(self, entries: Vec<RecentListEntry>) -> (sorted: Vec<RecentListEntry>)
        ensures
            self.ordered(sorted@),
            entries@.len() > 0 && self.key(entries@[0]) is None ==> sorted@ == entries@,
            entries@.len() == 0 ==> sorted@ == entries@,
            entries@.len() > 0 && self.key(entries@[0]) is Some ==> exists|order: Seq<usize>|
                is_stable_order(self.keys(entries@), order) && sorted@ == #[trigger] arranged(
                    entries@,
                    order,
                ),
    {
        if entries.len() == 0 {
            return entries;
        }
        if self.key_of(&entries[0]).is_none() {
            return entries;
        }
        let mut keys: Vec<u64> = Vec::new();
        let mut i: usize = 0;
        while i < entries.len()
            invariant
                i <= entries.len(),
                keys@.len() == i,
                entries@.len() > 0,
                self.key(entries@[0]) is Some,
                forall|k: int| 0 <= k < i ==> Some(#[trigger] keys@[k]) == self.key(entries@[k]),
            decreases entries.len() - i,
        {
            match self.key_of(&entries[i]) {
                Some(key) => keys.push(key),
                None => {
                    return entries;
                },
            }
            i = i + 1;
        }
        assert(keys@ =~= self.keys(entries@));
        let ghost before = entries@;
        let sorted = sort_by_key(entries, &keys);
        proof {
            let order = choose|order: Seq<usize>|
                is_stable_order(keys@, order) && sorted@ == #[trigger] arranged(before, order);
            assert forall|a: int, b: int| 0 <= a < b < sorted@.len() implies self.in_order(
                #[trigger] sorted@[a],
                #[trigger] sorted@[b],
            ) by {
                let i = order[a] as int;
                let j = order[b] as int;
                assert(pair_le((keys@[i], order[a]), (keys@[j], order[b])));
                assert(sorted@[a] == before[i] && sorted@[b] == before[j]);
                assert(Some(keys@[i]) == self.key(before[i]));
                assert(Some(keys@[j]) == self.key(before[j]));
            }
        }
        sorted
    }
}

fn date_key(at: i64) -> (key: u64)
    ensures
        key == latest_first(at),
{
    ((i64::MAX as i128) - (at as i128)) as u64
}

/// Whether two entries are plays of one map with the same mods.
pub open spec fn same_play(a: RecentListEntry, b: RecentListEntry) -> bool {
    a.map_id == b.map_id && mods_equal(a.score.mods, b.score.mods)
}

/// Whether entry `j` puts entry `i` out of a list that shows each map
/// with each mods once: it is a play of the same map with the same mods
/// that ranks higher, or as high and stands before it.
pub open spec fn outdoes(entries: Seq<RecentListEntry>, ranks: Seq<u64>, j: int, i: int) -> bool {
    &&& 0 <= j < entries.len()
    &&& j != i
    &&& same_play(entries[j], entries[i])
    &&& (ranks[j] > ranks[i] || (ranks[j] == ranks[i] && j < i))
}

/// Whether entry `i` stays in such a list.
pub open spec fn stays(entries: Seq<RecentListEntry>, ranks: Seq<u64>, i: int) -> bool {
    forall|j: int| !outdoes(entries, ranks, j, i)
}

/// Those of the first `n` entries that stay, in their order.
pub open spec fn staying(entries: Seq<RecentListEntry>, ranks: Seq<u64>, n: int) -> Seq<
    RecentListEntry,
>
    decreases n,
{
    if n <= 0 {
        Seq::empty()
    } else if stays(entries, ranks, n - 1) {
        staying(entries, ranks, n - 1).push(entries[n - 1])
    } else {
        staying(entries, ranks, n - 1)
    }
}

/// The keys that put the latest play first.
pub open spec fn date_keys(entries: Seq<RecentListEntry>) -> Seq<u64> {
    Seq::new(entries.len(), |i: int| latest_first(entries[i].score.ended_at))
}

fn is_outdone(entries: &Vec<RecentListEntry>, ranks: &Vec<u64>, i: usize) -> (outdone: bool)
    requires
        i < entries@.len(),
        ranks@.len() == entries@.len(),
    ensures
        outdone == !stays(entries@, ranks@, i as int),
{
    let mut j: usize = 0;
    while j < entries.len()
        invariant
            j <= entries.len(),
            i < entries@.len(),
            ranks@.len() == entries@.len(),
            forall|k: int| 0 <= k < j ==> !outdoes(entries@, ranks@, k, i as int),
        decreases entries.len() - j,
    {
        if j != i && entries[j].map_id == entries[i].map_id && same_mods(
            &entries[j].score.mods,
            &entries[i].score.mods,
        ) && (ranks[j] > ranks[i] || (ranks[j] == ranks[i] && j < i)) {
            assert(outdoes(entries@, ranks@, j as int, i as int));
            return true;
        }
        j = j + 1;
    }
    false
}

/// Shows each map with each mods once: of the plays of one map with the
/// same mods only the one that ranks highest stays, the first of them
/// where several rank as high; what stays is ordered with the latest play
/// first. `ranks[i]` is the rank of `entries[i]`; where there are not as
/// many ranks as entries, the entries stay as they are.
pub fn unique_best(entries: Vec<RecentListEntry>, ranks: &Vec<u64>) -> (unique: Vec<
    RecentListEntry,
>)
    ensures
        ranks@.len() != entries@.len() ==> unique@ == entries@,
        ranks@.len() == entries@.len() ==> exists|order: Seq<usize>|
            is_stable_order(
                date_keys(staying(entries@, ranks@, entries@.len() as int)),
                order,
            ) && unique@ == #[trigger] arranged(
                staying(entries@, ranks@, entries@.len() as int),
                order,
            ),
{
    if ranks.len() != entries.len() {
        return entries;
    }
    let mut outdone: Vec<bool> = Vec::new();
    let mut i: usize = 0;
    while i < entries.len()
        invariant
            i <= entries.len(),
            ranks@.len() == entries@.len(),
            outdone@.len() == i,
            forall|k: int| 0 <= k < i ==> (#[trigger] outdone@[k]) == !stays(entries@, ranks@, k),
        decreases entries.len() - i,
    {
        outdone.push(is_outdone(&entries, ranks, i));
        i = i + 1;
    }
    let ghost all = entries@;
    let mut rest = entries;
    let mut kept_reversed: Vec<RecentListEntry> = Vec::new();
    let ghost n = all.len() as int;
    assert(all.subrange(0, n) == all);
    // From the back to the front, so that what stays comes out in reverse.
    while rest.len() > 0
        invariant
            rest@.len() <= all.len(),
            rest@ == all.subrange(0, rest@.len() as int),
            outdone@.len() == all.len(),
            n == all.len(),
            forall|k: int| 0 <= k < n ==> (#[trigger] outdone@[k]) == !stays(all, ranks@, k),
            kept_reversed@.reverse() =~= kept_behind(all, ranks@, rest@.len() as int),
        decreases rest.len(),
    {
        let at = rest.len() - 1;
        let entry = rest.pop().unwrap();
        assert(entry == all[at as int]);
        if !outdone[at] {
            proof {
                assert(kept_reversed@.push(entry).reverse() =~= seq![entry]
                    + kept_reversed@.reverse());
            }
            kept_reversed.push(entry);
        }
    }
    let mut kept: Vec<RecentListEntry> = Vec::new();
    let ghost whole = kept_reversed@.reverse();
    while kept_reversed.len() > 0
        invariant
            kept@ + kept_reversed@.reverse() == whole,
        decreases kept_reversed.len(),
    {
        let ghost before = kept_reversed@;
        let entry = kept_reversed.pop().unwrap();
        proof {
            assert(before.reverse() =~= seq![entry] + kept_reversed@.reverse());
            assert(kept@.push(entry) + kept_reversed@.reverse() =~= kept@ + before.reverse());
        }
        kept.push(entry);
    }
    proof {
        assert(kept_reversed@.reverse() =~= Seq::<RecentListEntry>::empty());
        assert(kept@ =~= whole);
        assert(whole =~= kept_behind(all, ranks@, 0));
        lemma_kept_behind(all, ranks@, 0);
        assert(kept@ == staying(all, ranks@, n));
    }
    let mut keys: Vec<u64> = Vec::new();
    let mut k: usize = 0;
    while k < kept.len()
        invariant
            k <= kept.len(),
            keys@.len() == k,
            forall|j: int| 0 <= j < k ==> (#[trigger] keys@[j]) == latest_first(
                kept@[j].score.ended_at,
            ),
        decreases kept.len() - k,
    {
        keys.push(date_key(kept[k].score.ended_at));
        k = k + 1;
    }
    assert(keys@ =~= date_keys(kept@));
    sort_by_key(kept, &keys)
}

/// Those of the entries from place `from` on that stay, in their order.
pub open spec fn kept_behind(entries: Seq<RecentListEntry>, ranks: Seq<u64>, from: int) -> Seq<
    RecentListEntry,
>
    decreases entries.len() - from,
{
    if from >= entries.len() || from < 0 {
        Seq::empty()
    } else if stays(entries, ranks, from) {
        seq![entries[from]] + kept_behind(entries, ranks, from + 1)
    } else {
        kept_behind(entries, ranks, from + 1)
    }
}

/// What stays of the first entries, followed by what stays of the others,
/// is what stays of all.
pub proof fn lemma_kept_behind(entries: Seq<RecentListEntry>, ranks: Seq<u64>, from: int)
    requires
        0 <= from <= entries.len(),
    ensures
        staying(entries, ranks, from) + kept_behind(entries, ranks, from) == staying(
            entries,
            ranks,
            entries.len() as int,
        ),
    decreases entries.len() - from,
{
    if from == entries.len() {
        assert(staying(entries, ranks, from) + Seq::<RecentListEntry>::empty() == staying(
            entries,
            ranks,
            from,
        ));
    } else {
        lemma_kept_behind(entries, ranks, from + 1);
        if stays(entries, ranks, from) {
            assert(staying(entries, ranks, from).push(entries[from]) + kept_behind(
                entries,
                ranks,
                from + 1,
            ) =~= staying(entries, ranks, from) + (seq![entries[from]] + kept_behind(
                entries,
                ranks,
                from + 1,
            )));
        }
    }
}

} // verus!
