use bathbot::args::{get_mention_user, read_name_args};
use bathbot::badges::{
    avatar_urls, badges_of, named_user, no_badges_content, wants_thumbnail, Badge, BadgesOrder,
    BadgesQuery, BadgesUser, UserId,
};
use bathbot::cards::{medal_counts, Card, CardIssue};
use bathbot::graphs::{
    any_mode_mods, build_osutrack_url, build_top_caption, choose_mode, choose_timezone,
    fits_no_mode_content, get_map_id, get_map_id_from_history, map_not_found_content,
    misfit_content, mode_mods, no_top_scores, profile_flags, BitMapElement, Graph,
    GraphMapBpm, GraphMedals, GraphOsuTrack, GraphOsuTrackGrades, GraphOsuTrackScore,
    GraphSniped, GraphSource, GraphTopOrder, History, MapArg, MapIdError, MapIdType, MapResult,
    ModeMods, ProfileGraphFlags, ShowHideOption, H, W,
};
use bathbot::match_live::{
    channel_match, get_osu_match_id, lacking_thread_permission, missing_match, parse_match_id,
    prefix_remove_args, removal_reply, removal_target, thread_name, thread_plan,
    threads_unavailable, track_reply, MatchTrackResult, MatchliveRemove, RemovalTarget,
    ThreadChannel, ThreadPlan,
};
use bathbot::mods::GameMode;
use bathbot::simulate_map::OsuMap;
use rosu_v2::model::mods::GameModsIntermode;

fn words(list: &[&str]) -> Vec<String> {
    list.iter().map(|w| (*w).to_owned()).collect()
}

#[test]
fn match_id_from_id_or_link() {
    assert_eq!(get_osu_match_id("58320988"), Some(58320988));
    assert_eq!(get_osu_match_id("https://osu.ppy.sh/community/matches/58320988"), Some(58320988));
    assert_eq!(get_osu_match_id("https://osu.ppy.sh/mp/58320988"), Some(58320988));
    assert_eq!(get_osu_match_id("https://osu.ppy.sh/community/matches/583/x"), Some(583));
    assert_eq!(get_osu_match_id("https://osu.ppy.sh/community/matches/"), None);
    assert_eq!(get_osu_match_id("https://osu.ppy.sh/community/matches/99999999999"), None);
    assert_eq!(get_osu_match_id("https://osu.ppy.sh/b/58320988"), None);
    assert_eq!(get_osu_match_id("match"), None);
    assert_eq!(get_osu_match_id(""), None);
    assert_eq!(parse_match_id("58320988"), Ok(58320988));
    assert_eq!(
        parse_match_id("nope"),
        Err("Failed to parse match url.\nBe sure to provide either a match id or the multiplayer link to a match")
    );
}

#[test]
fn thread_decisions() {
    assert_eq!(thread_plan(ThreadChannel::Channel, false, false), ThreadPlan::Stay);
    assert_eq!(thread_plan(ThreadChannel::Thread, false, true), ThreadPlan::Unavailable);
    assert_eq!(thread_plan(ThreadChannel::Thread, true, false), ThreadPlan::LackingPermission);
    assert_eq!(thread_plan(ThreadChannel::Thread, true, true), ThreadPlan::Create);
    assert_eq!(thread_name(58320988), "Live tracking match id 58320988");
    assert!(threads_unavailable(Some(50024)));
    assert!(!threads_unavailable(Some(50013)));
    assert!(!threads_unavailable(None));
    assert_eq!(lacking_thread_permission(), "I'm lacking the permission to create public threads");
    assert_eq!(missing_match(), "You must specify either a match id or a multiplayer link to a match");
}

#[test]
fn track_replies() {
    assert_eq!(track_reply(MatchTrackResult::Added, "api"), None);
    assert_eq!(
        track_reply(MatchTrackResult::Capped, "api"),
        Some("Channels can track at most three games at a time")
    );
    assert_eq!(
        track_reply(MatchTrackResult::Duplicate, "api"),
        Some("That match is already being tracking in this channel")
    );
    assert_eq!(track_reply(MatchTrackResult::Error, "api"), Some("api"));
    assert_eq!(
        track_reply(MatchTrackResult::NotFound, "api"),
        Some("The osu!api returned a 404 indicating an invalid match id")
    );
    assert_eq!(
        track_reply(MatchTrackResult::Private, "api"),
        Some("The match can't be tracked because it is private")
    );
}

#[test]
fn removal_decisions() {
    let args = prefix_remove_args(Some("58320988")).unwrap().unwrap();
    assert_eq!(args.match_url, "58320988");
    assert!(prefix_remove_args(None).unwrap().is_none());
    assert!(prefix_remove_args(Some("x")).is_err());
    assert!(matches!(removal_target(&None), RemovalTarget::AskChannel));
    let named = Some(MatchliveRemove { match_url: "https://osu.ppy.sh/mp/12".to_owned() });
    assert!(matches!(removal_target(&named), RemovalTarget::Id(12)));
    let unnamed = Some(MatchliveRemove { match_url: "twelve".to_owned() });
    assert!(matches!(removal_target(&unnamed), RemovalTarget::Invalid(_)));
    assert_eq!(channel_match(Some(4)), Ok(4));
    assert_eq!(
        channel_match(None),
        Err("The channel does not track exactly one match and the match id could not be parsed from the first argument.\nTry specifying the match id as first argument.")
    );
    assert_eq!(
        removal_reply(58320988, true),
        "Stopped live tracking [the match](https://osu.ppy.sh/community/matches/58320988)"
    );
    assert_eq!(removal_reply(58320988, false), "The match wasn't tracked in this channel");
}

#[test]
fn mentions_name_users() {
    assert_eq!(get_mention_user("<@123>"), Some(123));
    assert_eq!(get_mention_user("<@!123>"), Some(123));
    assert_eq!(get_mention_user("123"), Some(123));
    assert_eq!(get_mention_user("0"), None);
    assert_eq!(get_mention_user("<@0>"), None);
    assert_eq!(get_mention_user("<@12a>"), None);
    assert_eq!(get_mention_user("<@+12>"), None);
    assert_eq!(get_mention_user("<@>"), None);
    assert_eq!(get_mention_user("<@12"), None);
    assert_eq!(get_mention_user("<#12>"), None);
    assert_eq!(get_mention_user("peppy"), None);
    assert_eq!(get_mention_user("<@18446744073709551616>"), None);
}

#[test]
fn words_name_whom_a_command_is_about() {
    let args = read_name_args(&words(&["peppy", "<@5>", "bade", "<@!6>"]));
    assert_eq!(args.name.as_deref(), Some("bade"));
    assert_eq!(args.discord, Some(6));
    let none = read_name_args(&Vec::new());
    assert!(none.name.is_none() && none.discord.is_none());
    let user = BadgesUser::args(&words(&["bubbleman"]));
    assert_eq!(user.name.as_deref(), Some("bubbleman"));
    assert!(user.discord.is_none() && user.sort.is_none());
    let card = Card::args(Some(GameMode::Taiko), &words(&["<@9>"]));
    assert_eq!(card.mode, Some(GameMode::Taiko));
    assert_eq!(card.discord, Some(9));
    assert!(card.name.is_none());
}

fn badge(id: u32, name: &str, awarded_at: i64, users: &[u32]) -> Badge {
    Badge { badge_id: id, name: name.to_owned(), awarded_at, users: users.to_vec() }
}

fn shelf() -> Vec<Badge> {
    vec![
        badge(1, "World Cup", 300, &[1, 2, 3]),
        badge(2, "Contest", 500, &[2]),
        badge(3, "world cup 2", -7, &[2, 9, 8, 7]),
        badge(4, "Contest", 100, &[5, 2]),
        badge(5, "Aspire", 500, &[]),
    ]
}

fn ids(badges: &[Badge]) -> Vec<u32> {
    badges.iter().map(|b| b.badge_id).collect()
}

#[test]
fn badges_in_each_order() {
    let mut badges = shelf();
    BadgesOrder::Alphabet.apply(&mut badges);
    assert_eq!(ids(&badges), [5, 2, 4, 1, 3]);
    let mut expected = shelf();
    expected.sort_by(|a, b| a.name.cmp(&b.name));
    assert_eq!(ids(&badges), ids(&expected));
    let mut badges = shelf();
    BadgesOrder::Date.apply(&mut badges);
    assert_eq!(ids(&badges), [2, 5, 1, 4, 3]);
    let mut badges = shelf();
    BadgesOrder::Owners.apply(&mut badges);
    assert_eq!(ids(&badges), [3, 1, 4, 2, 5]);
    let mut none: Vec<Badge> = Vec::new();
    BadgesOrder::default().apply(&mut none);
    assert!(none.is_empty());
    assert_eq!(BadgesOrder::default(), BadgesOrder::Date);
    let far = vec![badge(1, "a", i64::MIN, &[]), badge(2, "b", i64::MAX, &[]), badge(3, "c", 0, &[])];
    let mut sorted = far;
    BadgesOrder::Date.apply(&mut sorted);
    assert_eq!(ids(&sorted), [2, 3, 1]);
    let query = BadgesQuery { name: "cup".to_owned(), sort: Some(BadgesOrder::Owners) };
    assert_eq!(query.sort, Some(BadgesOrder::Owners));
}

#[test]
fn badges_of_a_user() {
    assert_eq!(ids(&badges_of(shelf(), 2)), [1, 2, 3, 4]);
    assert_eq!(ids(&badges_of(shelf(), 5)), [4]);
    assert!(badges_of(shelf(), 77).is_empty());
    assert!(wants_thumbnail(&badges_of(shelf(), 5)));
    assert!(!wants_thumbnail(&badges_of(shelf(), 2)));
    assert!(!wants_thumbnail(&Vec::new()));
    assert_eq!(avatar_urls(&vec![2, 124493]), ["https://a.ppy.sh/2", "https://a.ppy.sh/124493"]);
    assert_eq!(no_badges_content(&UserId::Id(2)), "User with id 2 has no badges :(");
    assert_eq!(
        no_badges_content(&UserId::Name("peppy".to_owned())),
        "User `peppy` has no badges :("
    );
    assert!(matches!(named_user(UserId::Id(2), Some("peppy".to_owned())), UserId::Name(n) if n == "peppy"));
    assert!(matches!(named_user(UserId::Id(2), None), UserId::Id(2)));
    assert!(matches!(named_user(UserId::Name("a".to_owned()), Some("b".to_owned())), UserId::Name(n) if n == "a"));
}

#[test]
fn card_issues() {
    assert_eq!(CardIssue::NoScores.content(), "Looks like they don't have any scores on that mode");
    assert_eq!(CardIssue::NotDrawn.content(), "Failed to draw the card :(");
    assert_eq!(medal_counts(12, 300), (12, 300));
    assert_eq!(medal_counts(u32::MAX as usize + 2, 0), (1, 0));
}

#[test]
fn profile_graph_curves() {
    let hide = Some(ShowHideOption::Hide);
    let show = Some(ShowHideOption::Show);
    assert_eq!(
        profile_flags(None, None, None),
        Some(ProfileGraphFlags { playcount: true, replays: true, badges: true })
    );
    assert_eq!(
        profile_flags(hide, show, None),
        Some(ProfileGraphFlags { playcount: false, replays: true, badges: true })
    );
    assert_eq!(
        profile_flags(hide, hide, show),
        Some(ProfileGraphFlags { playcount: false, replays: false, badges: true })
    );
    assert_eq!(profile_flags(hide, hide, hide), None);
}

#[test]
fn graph_choices() {
    assert_eq!(choose_mode(Some(GameMode::Catch), Some(GameMode::Mania)), GameMode::Catch);
    assert_eq!(choose_mode(None, Some(GameMode::Mania)), GameMode::Mania);
    assert_eq!(choose_mode(None, None), GameMode::Osu);
    assert_eq!(choose_timezone(Some(1), true, Some(2)), Some(1));
    assert_eq!(choose_timezone(None, true, Some(2)), Some(2));
    assert_eq!(choose_timezone(None, false, Some(2)), None);
    assert_eq!(choose_timezone::<i8>(None, true, None), None);
    assert_eq!((W, H), (1350, 711));
    let args = GraphMapBpm { map: Some("123".to_owned()), mods: None };
    assert!(args.mods.is_none());
    assert_ne!(GraphTopOrder::Date, GraphTopOrder::Index);
    assert_ne!(GraphTopOrder::TimeByHour, GraphTopOrder::TimeByDay);
}

#[test]
fn map_for_a_graph() {
    assert_eq!(get_map_id(MapArg::Id(MapIdType::Beatmap(5))), Some(Ok(5)));
    assert_eq!(get_map_id(MapArg::Id(MapIdType::Mapset(5))), Some(Err(MapIdError::IsSet)));
    assert_eq!(get_map_id(MapArg::Unparsed), Some(Err(MapIdError::Unparsed)));
    assert_eq!(get_map_id(MapArg::Missing), None);
    assert_eq!(get_map_id_from_history(History::Found(MapIdType::Beatmap(6))), Ok(6));
    assert_eq!(get_map_id_from_history(History::Found(MapIdType::Mapset(6))), Err(MapIdError::IsSet));
    assert_eq!(get_map_id_from_history(History::NoPermission), Err(MapIdError::NoHistory));
    assert_eq!(get_map_id_from_history(History::Nothing), Err(MapIdError::NothingFound));
    assert_eq!(
        MapIdError::Unparsed.content(),
        "Failed to parse map url. Be sure you specify a valid map id or url to a map."
    );
    assert_eq!(
        MapIdError::NoHistory.content(),
        "No beatmap specified and lacking permission to search the channel history for maps.\nTry specifying a map either by url or by map id, or give me the \"Read Message History\" permission."
    );
    assert_eq!(
        MapIdError::NothingFound.content(),
        "No beatmap specified and none found in recent channel history. Try specifying a map either by url or by map id."
    );
    assert_eq!(MapIdError::IsSet.content(), "Looks like you gave me a mapset id, I need a map id though");
}

#[test]
fn mods_for_a_graph() {
    let hdhr = GameModsIntermode::from_acronyms("HDHR");
    assert_eq!(any_mode_mods(&hdhr).unwrap().to_string(), "HDHR");
    // Fade in exists in mania alone.
    let fade_in = GameModsIntermode::from_acronyms("FI");
    let found = any_mode_mods(&fade_in).unwrap();
    assert_eq!(found, fade_in.try_with_mode(rosu_v2::model::GameMode::Mania).unwrap());
    assert!(fade_in.try_with_mode(rosu_v2::model::GameMode::Osu).is_none());
    let clash = GameModsIntermode::from_acronyms("EZHR");
    assert!(any_mode_mods(&clash).is_none());
    assert!(matches!(mode_mods(&clash, GameMode::Osu), ModeMods::Incompatible));
    assert!(matches!(mode_mods(&fade_in, GameMode::Taiko), ModeMods::WrongMode));
    assert!(matches!(mode_mods(&hdhr, GameMode::Catch), ModeMods::Fits(m) if m.to_string() == "HDHR"));
}

#[test]
fn captions_and_frames() {
    assert_eq!(build_top_caption("peppy", GameMode::Osu), "peppy's top200");
    assert_eq!(build_top_caption("chocomint", GameMode::Taiko), "chocomint's taiko top200");
    assert_eq!(build_top_caption("Cookiezi's", GameMode::Catch), "Cookiezi's' ctb top200");
    assert_eq!(build_top_caption("boss", GameMode::Mania), "boss' mania top200");
    assert_eq!(build_top_caption("", GameMode::Osu), "'s top200");
    let map = OsuMap {
        pp_map: rosu_pp::Beatmap::default(),
        map_id: 2118524,
        artist: "xi".to_owned(),
        title: "FREEDOM DiVE".to_owned(),
        version: "FOUR DIMENSIONS".to_owned(),
        creator: "Nakagawa-Kanon".to_owned(),
        status: "Ranked".to_owned(),
        cover: String::new(),
        mode_icon: String::new(),
    };
    let result = MapResult::new(&map, vec![1, 2, 3]);
    assert_eq!(result.title, "xi - FREEDOM DiVE [FOUR DIMENSIONS]");
    assert_eq!(result.url, "https://osu.ppy.sh/b/2118524");
    assert_eq!(result.bytes, [1, 2, 3]);
}

#[test]
fn image_becomes_an_element() {
    let mut img = image::RgbImage::new(3, 2);
    img.put_pixel(1, 0, image::Rgb([10, 20, 30]));
    let element = BitMapElement::new(image::DynamicImage::ImageRgb8(img), (7i32, 8i32));
    assert_eq!(element.size(), (3, 2));
    assert_eq!(*element.pos(), (7, 8));
    assert_eq!(element.img().len(), 3 * 2 * 4);
    assert_eq!(element.img()[4..8], [10, 20, 30, 255]);
    assert_eq!(element.img()[0..4], [0, 0, 0, 255]);
    let raw = BitMapElement::from_raw(vec![9; 4], (1, 1), 'x');
    assert_eq!(raw.img(), &vec![9; 4]);
    assert_eq!(raw.size(), (1, 1));
    assert_eq!(*raw.pos(), 'x');
}

#[test]
fn tracked_user_graphs() {
    let grades = GraphOsuTrack::Grades(GraphOsuTrackGrades {
        mode: Some(GameMode::Catch),
        name: Some("a b".to_owned()),
        discord: Some(3),
    });
    assert_eq!(grades.mode(), Some(GameMode::Catch));
    assert_eq!(grades.name().as_deref(), Some("a b"));
    assert_eq!(grades.discord(), Some(3));
    let score = GraphOsuTrack::Score(GraphOsuTrackScore { mode: None, name: None, discord: None });
    assert_eq!(score.mode(), None);
    assert!(score.name().is_none());
    assert_eq!(
        build_osutrack_url("He Ro", GameMode::Osu),
        "https://ameobea.me/osutrack/user/He%20Ro"
    );
    assert_eq!(
        build_osutrack_url("peppy", GameMode::Taiko),
        "https://ameobea.me/osutrack/user/peppy/taiko"
    );
    assert_eq!(
        build_osutrack_url("a  b", GameMode::Catch),
        "https://ameobea.me/osutrack/user/a%20%20b/ctb"
    );
    assert_eq!(
        build_osutrack_url("x", GameMode::Mania),
        "https://ameobea.me/osutrack/user/x/mania"
    );
    assert_eq!(Graph::OsuTrack(score).source(), Some(GraphSource::OsuTrack));
    let sniped = Graph::Sniped(GraphSniped { mode: None, name: None, discord: None });
    assert_eq!(sniped.source(), Some(GraphSource::Snipes));
    let medals = Graph::Medals(GraphMedals { name: None, discord: None });
    assert_eq!(medals.source(), None);
    assert_eq!(GraphSource::OsuTrack.footer(), "Data provided by ameobea.me/osutrack");
    assert_eq!(GraphSource::Snipes.footer(), "Data provided by snipe.huismetbenen.nl");
}

#[test]
fn graph_contents() {
    assert_eq!(
        map_not_found_content(123),
        "Could not find beatmap with id `123`. Did you give me a mapset id instead of a map id?"
    );
    assert_eq!(
        fits_no_mode_content("EZHR"),
        "Looks like either some mods in `EZHR` are incompatible with each other or do not belong to any single mode"
    );
    assert_eq!(
        misfit_content(&ModeMods::Incompatible, "EZHR", GameMode::Osu).as_deref(),
        Some("Looks like some mods in `EZHR` are incompatible with each other")
    );
    assert_eq!(
        misfit_content(&ModeMods::WrongMode, "FI", GameMode::Taiko).as_deref(),
        Some(format!("The mods `FI` are incompatible with the mode {:?}", rosu_v2::model::GameMode::Taiko).as_str())
    );
    for (mode, outside) in [
        (GameMode::Osu, rosu_v2::model::GameMode::Osu),
        (GameMode::Catch, rosu_v2::model::GameMode::Catch),
        (GameMode::Mania, rosu_v2::model::GameMode::Mania),
    ] {
        assert_eq!(
            misfit_content(&ModeMods::WrongMode, "", mode).unwrap(),
            format!("The mods `` are incompatible with the mode {outside:?}")
        );
    }
    let hd = GameModsIntermode::from_acronyms("HD");
    assert!(misfit_content(&mode_mods(&hd, GameMode::Osu), "HD", GameMode::Osu).is_none());
    assert_eq!(no_top_scores(), "User's top scores are empty");
}

#[test]
fn graph_is_framed() {
    let result = MapResult { bytes: vec![7, 8], title: "t".to_owned(), url: "u".to_owned() };
    let (embed, bytes) = result.into_message();
    assert_eq!(bytes, [7, 8]);
    assert_eq!(embed.title.as_deref(), Some("t"));
    assert_eq!(embed.url.as_deref(), Some("u"));
    assert_eq!(embed.image.as_deref(), Some("attachment://graph.png"));
    assert!(embed.fields.is_empty() && embed.footer.is_none() && embed.author.is_none());
}
