//! The badge commands: their arguments, the order of the badges, and what
//! a user is told who has none.

use crate::args::{name_args, read_name_args, NameArgs};
use crate::embed::opt_text;
use crate::sorting::{arranged, descending, is_stable_order, sort_by_key};
use crate::sorting::pair_le;
use crate::text::{
    decimal, lemma_text_lt_irreflexive, lemma_text_lt_transitive, push_decimal, text_before,
    text_lt,
};
use vstd::prelude::*;

verus! {

#[derive(Clone, Copy, Debug, PartialEq, Eq, Structural)]
pub enum BadgesOrder {
    Alphabet,
    Date,
    Owners,
}

impl Default for BadgesOrder {
    fn default() -> (order: Self)
        ensures
            order == BadgesOrder::Date,
    {
        BadgesOrder::Date
    }
}

pub struct BadgesQuery {
    pub name: String,
    pub sort: Option<BadgesOrder>,
}

pub struct BadgesUser {
    pub name: Option<String>,
    pub sort: Option<BadgesOrder>,
    pub discord: Option<u64>,
}

pub enum Badges {
    Query(BadgesQuery),
    User(BadgesUser),
}

/// A badge, with what the commands read of it.
pub struct Badge {
    pub badge_id: u32,
    pub name: String,
    /// When the badge was first awarded, in seconds since 1970.
    pub awarded_at: i64,
    /// The ids of the users who have the badge.
    pub users: Vec<u32>,
}

/// How many of the first `n` badges have a name that comes before `name`.
pub open spec fn names_before(badges: Seq<Badge>, name: Seq<char>, n: int) -> nat
    decreases n,
{
    if n <= 0 {
        0
    } else {
        names_before(badges, name, n - 1) + (if text_lt(badges[n - 1].name@, name) {
            1nat
        } else {
            0nat
        })
    }
}

/// The key of a moment when the latest is to come first.
pub open spec fn latest_first(at: i64) -> u64 {
    (i64::MAX - at) as u64
}

impl BadgesOrder {
    /// The key by which a badge is ordered: for the alphabet the number of
    /// badges whose name comes before its own, for the date and the owners
    /// a key that puts the latest and the most first.
    pub open spec fn key(self, badges: Seq<Badge>, i: int) -> u64 {
        match self {
            BadgesOrder::Alphabet => names_before(badges, badges[i].name@, badges.len() as int)
                as u64,
            BadgesOrder::Date => latest_first(badges[i].awarded_at),
            BadgesOrder::Owners => descending(badges[i].users@.len() as u64),
        }
    }

    pub open spec fn keys(self, badges: Seq<Badge>) -> Seq<u64> {
        Seq::new(badges.len(), |i: int| self.key(badges, i))
    }

    /// Whether `first` may stand before `second` in this order.
    pub open spec fn in_order(self, first: Badge, second: Badge) -> bool {
        match self {
            BadgesOrder::Alphabet => !text_lt(second.name@, first.name@),
            BadgesOrder::Date => first.awarded_at >= second.awarded_at,
            BadgesOrder::Owners => first.users@.len() >= second.users@.len(),
        }
    }

    /// Whether the badges stand in this order.
    pub open spec fn ordered(self, badges: Seq<Badge>) -> bool {
        forall|a: int, b: int|
            0 <= a < b < badges.len() ==> self.in_order(#[trigger] badges[a], #[trigger] badges[b])
    }

    /// Orders the badges: by name, by date with the latest first, or by
    /// the number of owners with the most first. Badges that are equal in
    /// that keep their order.
    pub fn apply(self, badges: &mut Vec<Badge>)
        ensures
            exists|order: Seq<usize>|
                is_stable_order(self.keys(old(badges)@), order) && final(badges)@
                    == #[trigger] arranged(old(badges)@, order),
            self.ordered(final(badges)@),
    {
        let ghost before = badges@;
        let mut keys: Vec<u64> = Vec::new();
        let mut i: usize = 0;
        while i < badges.len()
            invariant
                i <= badges.len(),
                keys@.len() == i,
                forall|k: int| 0 <= k < i ==> (#[trigger] keys@[k]) == self.key(badges@, k),
            decreases badges.len() - i,
        {
            let key = match self {
                BadgesOrder::Alphabet => count_before(badges, badges[i].name.as_str()),
                BadgesOrder::Date => ((i64::MAX as i128) - (badges[i].awarded_at as i128)) as u64,
                BadgesOrder::Owners => u64::MAX - (badges[i].users.len() as u64),
            };
            keys.push(key);
            i = i + 1;
        }
        assert(keys@ =~= self.keys(badges@));
        let mut taken: Vec<Badge> = Vec::new();
        std::mem::swap(badges, &mut taken);
        let mut sorted = sort_by_key(taken, &keys);
        proof {
            let order = choose|order: Seq<usize>|
                is_stable_order(keys@, order) && sorted@ == #[trigger] arranged(before, order);
            lemma_applied_in_order(self, before, order);
        }
        std::mem::swap(badges, &mut sorted);
    }
}

/// A name that comes before another has fewer names before it, where it
/// is itself among the names that are counted.
pub proof fn lemma_names_before_grow(badges: Seq<Badge>, x: int, y: Seq<char>, n: int)
    requires
        0 <= n <= badges.len(),
        0 <= x < badges.len(),
        text_lt(badges[x].name@, y),
    ensures
        names_before(badges, badges[x].name@, n) + (if x < n {
            1nat
        } else {
            0nat
        }) <= names_before(badges, y, n),
    decreases n,
{
    if n > 0 {
        lemma_names_before_grow(badges, x, y, n - 1);
        let name = badges[n - 1].name@;
        if text_lt(name, badges[x].name@) {
            lemma_text_lt_transitive(name, badges[x].name@, y);
        }
        if x == n - 1 {
            lemma_text_lt_irreflexive(name);
        }
    }
}

/// No more names are counted than there are badges.
pub proof fn lemma_names_before_bound(badges: Seq<Badge>, name: Seq<char>, n: int)
    requires
        0 <= n,
    ensures
        names_before(badges, name, n) <= n,
    decreases n,
{
    if n > 0 {
        lemma_names_before_bound(badges, name, n - 1);
    }
}

/// Badges that are arranged by their keys stand in the order that the
/// keys are for.
pub proof fn lemma_applied_in_order(by: BadgesOrder, badges: Seq<Badge>, order: Seq<usize>)
    requires
        badges.len() <= usize::MAX,
        is_stable_order(by.keys(badges), order),
    ensures
        by.ordered(arranged(badges, order)),
{
    let sorted = arranged(badges, order);
    assert forall|a: int, b: int| 0 <= a < b < sorted.len() implies by.in_order(
        #[trigger] sorted[a],
        #[trigger] sorted[b],
    ) by {
        let i = order[a] as int;
        let j = order[b] as int;
        assert(pair_le((by.keys(badges)[i], order[a]), (by.keys(badges)[j], order[b])));
        assert(by.keys(badges)[i] <= by.keys(badges)[j]);
        assert(sorted[a] == badges[i] && sorted[b] == badges[j]);
        assert(by.keys(badges)[i] == by.key(badges, i));
        assert(by.keys(badges)[j] == by.key(badges, j));
        match by {
            BadgesOrder::Alphabet => {
                lemma_names_before_bound(badges, badges[i].name@, badges.len() as int);
                lemma_names_before_bound(badges, badges[j].name@, badges.len() as int);
                if text_lt(badges[j].name@, badges[i].name@) {
                    lemma_names_before_grow(badges, j, badges[i].name@, badges.len() as int);
                }
            },
            BadgesOrder::Date => {},
            BadgesOrder::Owners => {
                vstd::std_specs::vec::axiom_spec_len(&badges[i].users);
                vstd::std_specs::vec::axiom_spec_len(&badges[j].users);
            },
        }
    }
}

fn count_before(badges: &Vec<Badge>, name: &str) -> (count: u64)
    ensures
        count == names_before(badges@, name@, badges@.len() as int),
{
    let mut count: u64 = 0;
    let mut i: usize = 0;
    while i < badges.len()
        invariant
            i <= badges.len(),
            count == names_before(badges@, name@, i as int),
            count <= i,
        decreases badges.len() - i,
    {
        if text_before(badges[i].name.as_str(), name) {
            count = count + 1;
        }
        i = i + 1;
    }
    count
}

impl BadgesUser {
    /// Reads the arguments from the words behind the command.
    pub fn args(words: &Vec<String>) -> (args: Self)
        ensures
            opt_text(args.name) == name_args(words@).0,
            args.discord == name_args(words@).1,
            args.sort is None,
    {
        let NameArgs { name, discord } = read_name_args(words);
        BadgesUser { name, discord, sort: None }
    }
}

/// Whether the user has the badge.
pub open spec fn owns(badge: Badge, user_id: u32) -> bool {
    badge.users@.contains(user_id)
}

fn has_badge(badge: &Badge, user_id: u32) -> (has: bool)
    ensures
        has == owns(*badge, user_id),
{
    let mut i: usize = 0;
    while i < badge.users.len()
        invariant
            i <= badge.users.len(),
            forall|k: int| 0 <= k < i ==> badge.users@[k] != user_id,
        decreases badge.users.len() - i,
    {
        if badge.users[i] == user_id {
            return true;
        }
        i = i + 1;
    }
    false
}

/// The badges of a user: those of `badges` that the user has, in their
/// order.
pub fn badges_of(badges: Vec<Badge>, user_id: u32) -> (owned: Vec<Badge>)
    ensures
        owned@ == badges@.filter(|b: Badge| owns(b, user_id)),
{
    let ghost all = badges@;
    let mut rest = badges;
    let mut reversed: Vec<Badge> = Vec::new();
    while rest.len() > 0
        invariant
            rest@.len() <= all.len(),
            rest@ == all.subrange(0, rest@.len() as int),
            reversed@.len() == all.len() - rest@.len(),
            forall|k: int| 0 <= k < reversed@.len() ==> (#[trigger] reversed@[k]) == all[all.len() - 1 - k],
        decreases rest.len(),
    {
        let badge = rest.pop().unwrap();
        reversed.push(badge);
    }
    let mut owned: Vec<Badge> = Vec::new();
    let ghost mut seen: int = 0;
    assert(all.subrange(0, 0) =~= Seq::<Badge>::empty());
    while reversed.len() > 0
        invariant
            seen + reversed@.len() == all.len(),
            0 <= seen,
            forall|k: int| 0 <= k < reversed@.len() ==> (#[trigger] reversed@[k]) == all[all.len() - 1 - k],
            owned@ == all.subrange(0, seen).filter(|b: Badge| owns(b, user_id)),
        decreases reversed.len(),
    {
        let badge = reversed.pop().unwrap();
        proof {
            assert(badge == all[seen]);
            let longer = all.subrange(0, seen + 1);
            assert(longer.drop_last() == all.subrange(0, seen));
            assert(longer.last() == badge);
            reveal(Seq::filter);
            seen = seen + 1;
        }
        if has_badge(&badge, user_id) {
            owned.push(badge);
        }
    }
    assert(all.subrange(0, all.len() as int) == all);
    owned
}

/// Whom a lookup of a user names: the id, or the name.
pub enum UserId {
    Id(u32),
    Name(String),
}

/// What is said of a user without badges.
pub open spec fn no_badges(user: UserId) -> Seq<char> {
    match user {
        UserId::Id(id) => "User with id "@ + decimal(id as nat) + " has no badges :("@,
        UserId::Name(name) => "User `"@ + name@ + "` has no badges :("@,
    }
}

/// Builds what is said of a user without badges.
pub fn no_badges_content(user: &UserId) -> (content: String)
    ensures
        content@ == no_badges(*user),
{
    match user {
        UserId::Id(id) => {
            let mut content = "User with id ".to_owned();
            push_decimal(&mut content, *id as u64);
            content.append(" has no badges :(");
            content
        },
        UserId::Name(name) => {
            let mut content = "User `".to_owned();
            content.append(name.as_str());
            content.append("` has no badges :(");
            content
        },
    }
}

/// The user to name where there are no badges: by the name where the
/// lookup of the id's name brought one.
pub fn named_user(user: UserId, looked_up: Option<String>) -> (named: UserId)
    ensures
        named == match user {
            UserId::Id(id) => match looked_up {
                Some(name) => UserId::Name(name),
                None => UserId::Id(id),
            },
            UserId::Name(name) => UserId::Name(name),
        },
{
    match user {
        UserId::Id(id) => match looked_up {
            Some(name) => UserId::Name(name),
            None => UserId::Id(id),
        },
        UserId::Name(name) => UserId::Name(name),
    }
}

/// The address of a user's avatar.
pub open spec fn avatar_url(user_id: u32) -> Seq<char> {
    "https://a.ppy.sh/"@ + decimal(user_id as nat)
}

/// The addresses of the avatars of the owners of a badge.
pub fn avatar_urls(owners: &Vec<u32>) -> (urls: Vec<String>)
    ensures
        urls@.len() == owners@.len(),
        forall|i: int| 0 <= i < owners@.len() ==> (#[trigger] urls@[i])@ == avatar_url(owners@[i]),
{
    let mut urls: Vec<String> = Vec::new();
    let mut i: usize = 0;
    while i < owners.len()
        invariant
            i <= owners.len(),
            urls@.len() == i,
            forall|k: int| 0 <= k < i ==> (#[trigger] urls@[k])@ == avatar_url(owners@[k]),
        decreases owners.len() - i,
    {
        let mut url = "https://a.ppy.sh/".to_owned();
        push_decimal(&mut url, owners[i] as u64);
        urls.push(url);
        i = i + 1;
    }
    urls
}

/// Whether the avatars of the owners are put together into one picture:
/// only where the user has one badge.
pub fn wants_thumbnail(badges: &Vec<Badge>) -> (wanted: bool)
    ensures
        wanted == (badges@.len() == 1),
{
    badges.len() == 1
}

} // verus!
