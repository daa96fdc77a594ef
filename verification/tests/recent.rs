use bathbot::mods::GameMode;
use bathbot::recent_list::{
    include_fails, invalid_mods, legacy_scores, message_content, no_plays_content, ArgsError,
    GradeOption, ModSelection, RecentList, RecentListUnique, ScoreOrder,
};
use bathbot::recent_scores::{
    own_pp_is_max, score_filter, unique_best, RecentListEntry, ScoreFacts, ScoreSlim,
};
use bathbot::sorting::{descending_key, reorder, sort_by_key, stable_order};
use rosu_v2::model::mods::{GameMods, GameModsIntermode};

fn words(list: &[&str]) -> Vec<String> {
    list.iter().map(|w| (*w).to_owned()).collect()
}

#[test]
fn list_arguments() {
    let args = RecentList::args(Some(GameMode::Mania), &words(&["Badewanne3", "Grade=SS", "<@5>"]))
        .ok()
        .unwrap();
    assert_eq!(args.mode, Some(GameMode::Mania));
    assert_eq!(args.name.as_deref(), Some("badewanne3"));
    assert_eq!(args.grade, Some(GradeOption::SS));
    assert_eq!(args.discord, Some(5));
    assert_eq!(args.passes, None);
    assert!(args.query.is_none() && args.sort.is_none() && args.mods.is_none());
    assert!(args.unique.is_none() && args.score_data.is_none());
    let args = RecentList::args(None, &words(&["g=a", "pass=T", "f=0"])).ok().unwrap();
    assert_eq!(args.grade, None);
    assert_eq!(args.passes, Some(true));
    let args = RecentList::args(None, &words(&["fails=true "])).ok().unwrap();
    assert_eq!(args.passes, Some(false));
    let args = RecentList::args(None, &words(&["p=1", "fail=1"])).ok().unwrap();
    assert_eq!(args.passes, Some(false));
    let args = RecentList::args(None, &words(&["=x", "a", "b", "grade=zz"])).ok().unwrap();
    assert_eq!(args.name.as_deref(), Some("b"));
    let none = RecentList::args(None, &Vec::new()).ok().unwrap();
    assert!(none.name.is_none() && none.grade.is_none() && none.passes.is_none());
    for (word, grade) in [
        ("g=ss", GradeOption::SS),
        ("g=s", GradeOption::S),
        ("g=a", GradeOption::A),
        ("g=b", GradeOption::B),
        ("g=c", GradeOption::C),
        ("g=d", GradeOption::D),
        ("g=f", GradeOption::F),
    ] {
        assert_eq!(RecentList::args(None, &words(&[word])).ok().unwrap().grade, Some(grade));
    }
}

#[test]
fn list_argument_errors() {
    let content = |list: &[&str]| match RecentList::args(None, &words(list)) {
        Ok(_) => panic!("read {list:?}"),
        Err(e) => e.content(),
    };
    assert_eq!(content(&["pass=maybe"]), "Failed to parse `pass`. Must be either `true` or `false`.");
    assert_eq!(content(&["a", "FAIL=2"]), "Failed to parse `fail`. Must be either `true` or `false`.");
    assert_eq!(
        content(&["grade=e"]),
        "Failed to parse `grade`. Must be either `SS`, `S`, `A`, `B`, `C`, `D`, or `F`."
    );
    assert_eq!(
        content(&["Mods=hd", "pass=x"]),
        "Unrecognized option `mods`.\nAvailable options are: `grade` or `pass`."
    );
    assert!(matches!(
        RecentList::args(None, &words(&["a", "b", "x=1"])),
        Err(ArgsError::Unrecognized(k)) if k == "x"
    ));
    assert!(matches!(RecentList::args(None, &words(&["pass=", "x=1"])), Err(ArgsError::Pass)));
}

#[test]
fn which_plays_are_fetched() {
    let f = Some(GradeOption::F);
    let a = Some(GradeOption::A);
    assert_eq!(include_fails(f, Some(true)), None);
    assert_eq!(include_fails(f, Some(false)), Some(true));
    assert_eq!(include_fails(a, Some(true)), Some(false));
    assert_eq!(include_fails(None, Some(false)), Some(true));
    assert_eq!(include_fails(f, None), Some(true));
    assert_eq!(include_fails(None, None), Some(true));
    assert_eq!(include_fails(a, None), Some(false));
    assert!(legacy_scores(Some(true), Some(false)));
    assert!(!legacy_scores(Some(false), Some(true)));
    assert!(legacy_scores(None, Some(true)));
    assert!(!legacy_scores(None, Some(false)));
    assert!(!legacy_scores(None, None));
}

#[test]
fn list_contents() {
    assert_eq!(no_plays_content(GameMode::Osu, "peppy"), "No recent plays found for user `peppy`");
    assert_eq!(
        no_plays_content(GameMode::Catch, "peppy"),
        "No recent ctb plays found for user `peppy`"
    );
    assert_eq!(
        no_plays_content(GameMode::Taiko, "a"),
        "No recent taiko plays found for user `a`"
    );
    assert_eq!(
        no_plays_content(GameMode::Mania, "a"),
        "No recent mania plays found for user `a`"
    );
    assert!(invalid_mods().starts_with("Failed to parse mods.\nIf you want included mods"));
    assert!(invalid_mods().ends_with("specify it e.g. as `-hdnf!`."));
    assert_eq!(message_content(None, None, None), None);
    assert_eq!(message_content(Some("A"), None, None).as_deref(), Some("`Grade: A`"));
    let exact = ModSelection::Exact("HDHR".to_owned());
    assert_eq!(message_content(None, Some(&exact), None).as_deref(), Some("`Mods: HDHR`"));
    let without = ModSelection::Exclude { mods: "NF".to_owned(), nomod: false };
    assert_eq!(
        message_content(Some("S"), Some(&without), Some("artist=xi")).as_deref(),
        Some("`Grade: S` ~ `Mods: Exclude NF` ~ `Query: artist=xi`")
    );
    let nomod = ModSelection::Exclude { mods: "NF".to_owned(), nomod: true };
    assert_eq!(
        message_content(None, Some(&nomod), Some("q")).as_deref(),
        Some("`Mods: Exclude NM (without NF)` ~ `Query: q`")
    );
    let with = ModSelection::Include("DT".to_owned());
    assert_eq!(
        message_content(Some("F"), None, Some("q")).as_deref(),
        Some("`Grade: F` ~ `Query: q`")
    );
    assert_eq!(message_content(None, Some(&with), None).as_deref(), Some("`Mods: Include DT`"));
    assert_eq!(message_content(None, None, Some("")).as_deref(), Some("`Query: `"));
}

#[test]
fn which_plays_are_listed() {
    let facts = |matches_query, passed, has_grade, matches_mods| ScoreFacts {
        matches_query,
        passed,
        has_grade,
        matches_mods,
    };
    assert!(score_filter(None, None, &facts(true, false, false, true)));
    assert!(!score_filter(None, None, &facts(false, true, true, true)));
    assert!(!score_filter(None, None, &facts(true, true, true, false)));
    assert!(score_filter(Some(GradeOption::F), Some(true), &facts(true, false, false, true)));
    assert!(!score_filter(Some(GradeOption::F), None, &facts(true, true, true, true)));
    assert!(score_filter(Some(GradeOption::A), Some(false), &facts(true, true, true, true)));
    assert!(!score_filter(Some(GradeOption::A), None, &facts(true, true, false, true)));
    assert!(score_filter(None, Some(true), &facts(true, true, false, true)));
    assert!(!score_filter(None, Some(true), &facts(true, false, true, true)));
    assert!(score_filter(None, Some(false), &facts(true, false, true, true)));
    assert!(own_pp_is_max(true, true, GameMode::Osu));
    assert!(!own_pp_is_max(true, true, GameMode::Mania));
    assert!(!own_pp_is_max(false, true, GameMode::Osu));
    assert!(!own_pp_is_max(true, false, GameMode::Catch));
}

fn mods(acronyms: &str) -> GameMods {
    GameModsIntermode::from_acronyms(acronyms)
        .try_with_mode(rosu_v2::model::GameMode::Osu)
        .unwrap()
}

fn entry(idx: usize, map_id: u32, acronyms: &str, score: u32, combo: u32, ended_at: i64) -> RecentListEntry {
    RecentListEntry {
        idx,
        score: ScoreSlim {
            mods: mods(acronyms),
            score,
            max_combo: combo,
            ended_at,
            pp: 0,
            accuracy: 0,
        },
        map_id,
        stars: 0,
        max_pp: 0,
        max_combo: 0,
    }
}

fn plays() -> Vec<RecentListEntry> {
    vec![
        entry(0, 1, "HD", 500, 70, 1000),
        entry(1, 2, "", 900, 10, 900),
        entry(2, 1, "HD", 800, 30, 800),
        entry(3, 1, "HDHR", 100, 70, 700),
        entry(4, 2, "", 900, 99, 600),
        entry(5, 3, "DTHDHR", 300, 50, 1500),
    ]
}

fn places(entries: &[RecentListEntry]) -> Vec<usize> {
    entries.iter().map(|e| e.idx).collect()
}

#[test]
fn plays_in_each_order() {
    assert_eq!(places(&ScoreOrder::Combo.apply(plays())), [4, 0, 3, 5, 2, 1]);
    assert_eq!(places(&ScoreOrder::Date.apply(plays())), [5, 0, 1, 2, 3, 4]);
    assert_eq!(places(&ScoreOrder::Score.apply(plays())), [1, 4, 2, 0, 5, 3]);
    assert_eq!(places(&ScoreOrder::ModsCount.apply(plays())), [5, 3, 0, 2, 1, 4]);
    for order in [
        ScoreOrder::Acc,
        ScoreOrder::Bpm,
        ScoreOrder::Length,
        ScoreOrder::Misses,
        ScoreOrder::Pp,
        ScoreOrder::RankedDate,
        ScoreOrder::Stars,
    ] {
        assert_eq!(places(&order.apply(plays())), [0, 1, 2, 3, 4, 5]);
    }
    assert!(ScoreOrder::Score.apply(Vec::new()).is_empty());
}

#[test]
fn each_map_once() {
    let by_score: Vec<u64> = plays().iter().map(|e| e.score.score as u64).collect();
    let unique = unique_best(plays(), &by_score);
    assert_eq!(places(&unique), [5, 1, 2, 3]);
    let by_combo: Vec<u64> = plays().iter().map(|e| e.score.max_combo as u64).collect();
    assert_eq!(places(&unique_best(plays(), &by_combo)), [5, 0, 3, 4]);
    assert_eq!(places(&unique_best(plays(), &vec![1, 2])), [0, 1, 2, 3, 4, 5]);
    assert!(unique_best(Vec::new(), &Vec::new()).is_empty());
    assert_ne!(RecentListUnique::HighestPp, RecentListUnique::HighestScore);
}

#[test]
fn sorting_is_stable() {
    assert_eq!(stable_order(&vec![3, 1, 2, 1, 3, 0]), [5, 1, 3, 2, 0, 4]);
    assert!(stable_order(&Vec::new()).is_empty());
    let items = vec!["c", "a1", "b", "a2", "c2", "z"];
    assert_eq!(sort_by_key(items.clone(), &vec![3, 1, 2, 1, 3, 0]), ["z", "a1", "a2", "b", "c", "c2"]);
    assert_eq!(sort_by_key(items.clone(), &vec![3, 1]), items);
    let keys: Vec<u64> = [5u64, 9, 5, 0, u64::MAX].iter().map(|k| descending_key(*k)).collect();
    assert_eq!(sort_by_key(vec!['a', 'b', 'c', 'd', 'e'], &keys), ['e', 'b', 'a', 'c', 'd']);
    let mut state: u64 = 7;
    let mut keys = Vec::new();
    for _ in 0..300 {
        state = state.wrapping_mul(6364136223846793005).wrapping_add(1442695040888963407);
        keys.push(state >> 60);
    }
    let items: Vec<usize> = (0..keys.len()).collect();
    let mut expected = items.clone();
    expected.sort_by_key(|i| keys[*i]);
    assert_eq!(sort_by_key(items, &keys), expected);
}

#[test]
fn reorder_follows_the_order() {
    assert_eq!(reorder(vec!['a', 'b', 'c'], &vec![2, 0, 1]), ['c', 'a', 'b']);
    assert_eq!(reorder(vec!['a', 'b', 'c'], &vec![1]), ['b']);
    assert_eq!(reorder(vec!['a', 'b', 'c'], &vec![1, 1, 0]), ['b']);
    assert_eq!(reorder(vec!['a', 'b', 'c'], &vec![0, 3, 1]), ['a']);
    assert!(reorder(Vec::<char>::new(), &Vec::new()).is_empty());
}
