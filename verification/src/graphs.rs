//! The graph commands: their arguments, what they decide before a graph is
//! drawn, and what frames the drawn graph.

use crate::mods::{is_valid, mods_valid, mods_with_mode, try_with_mode, GameMode};
use crate::simulate_map::OsuMap;
use crate::embed::{Embed, EmbedView};
use crate::simulate_page::{build_map_url, map_url};
use crate::text::{decimal, push_decimal};
use crate::text::{chars_of, replace_char, replaced};
use image::DynamicImage;
use rosu_v2::model::mods::{GameMods, GameModsIntermode};
use vstd::prelude::*;

verus! {

/// The width of a graph, in pixels.
pub const W: u32 = 1350;

/// The height of a graph, in pixels.
pub const H: u32 = 711;

pub struct GraphMapBpm {
    pub map: Option<String>,
    pub mods: Option<String>,
}

pub struct GraphMapStrains {
    pub map: Option<String>,
    pub mods: Option<String>,
    pub mode: Option<GameMode>,
}

pub struct GraphMedals {
    pub name: Option<String>,
    pub discord: Option<u64>,
}

pub struct GraphOsuTrackPpRank {
    pub mode: Option<GameMode>,
    pub name: Option<String>,
    pub discord: Option<u64>,
}

pub struct GraphOsuTrackScore {
    pub mode: Option<GameMode>,
    pub name: Option<String>,
    pub discord: Option<u64>,
}

pub struct GraphOsuTrackHitRatios {
    pub mode: Option<GameMode>,
    pub name: Option<String>,
    pub discord: Option<u64>,
}

pub struct GraphOsuTrackPlaycount {
    pub mode: Option<GameMode>,
    pub name: Option<String>,
    pub discord: Option<u64>,
}

pub struct GraphOsuTrackAccuracy {
    pub mode: Option<GameMode>,
    pub name: Option<String>,
    pub discord: Option<u64>,
}

pub struct GraphOsuTrackGrades {
    pub mode: Option<GameMode>,
    pub name: Option<String>,
    pub discord: Option<u64>,
}

pub enum GraphOsuTrack {
    PpRank(GraphOsuTrackPpRank),
    Score(GraphOsuTrackScore),
    HitRatios(GraphOsuTrackHitRatios),
    Playcount(GraphOsuTrackPlaycount),
    Accuracy(GraphOsuTrackAccuracy),
    Grades(GraphOsuTrackGrades),
}

impl GraphOsuTrack {
    pub open spec fn mode_spec(self) -> Option<GameMode> {
        match self {
            GraphOsuTrack::PpRank(args) => args.mode,
            GraphOsuTrack::Score(args) => args.mode,
            GraphOsuTrack::HitRatios(args) => args.mode,
            GraphOsuTrack::Playcount(args) => args.mode,
            GraphOsuTrack::Accuracy(args) => args.mode,
            GraphOsuTrack::Grades(args) => args.mode,
        }
    }

    pub open spec fn name_spec(self) -> Option<String> {
        match self {
            GraphOsuTrack::PpRank(args) => args.name,
            GraphOsuTrack::Score(args) => args.name,
            GraphOsuTrack::HitRatios(args) => args.name,
            GraphOsuTrack::Playcount(args) => args.name,
            GraphOsuTrack::Accuracy(args) => args.name,
            GraphOsuTrack::Grades(args) => args.name,
        }
    }

    pub open spec fn discord_spec(self) -> Option<u64> {
        match self {
            GraphOsuTrack::PpRank(args) => args.discord,
            GraphOsuTrack::Score(args) => args.discord,
            GraphOsuTrack::HitRatios(args) => args.discord,
            GraphOsuTrack::Playcount(args) => args.discord,
            GraphOsuTrack::Accuracy(args) => args.discord,
            GraphOsuTrack::Grades(args) => args.discord,
        }
    }

    /// The mode that the arguments name, whatever graph they ask for.
    pub fn mode(&self) -> (mode: Option<GameMode>)
        ensures
            mode == self.mode_spec(),
    {
        match self {
            GraphOsuTrack::PpRank(args) => args.mode,
            GraphOsuTrack::Score(args) => args.mode,
            GraphOsuTrack::HitRatios(args) => args.mode,
            GraphOsuTrack::Playcount(args) => args.mode,
            GraphOsuTrack::Accuracy(args) => args.mode,
            GraphOsuTrack::Grades(args) => args.mode,
        }
    }

    /// The name that the arguments give, whatever graph they ask for.
    pub fn name(&self) -> (name: &Option<String>)
        ensures
            *name == self.name_spec(),
    {
        match self {
            GraphOsuTrack::PpRank(args) => &args.name,
            GraphOsuTrack::Score(args) => &args.name,
            GraphOsuTrack::HitRatios(args) => &args.name,
            GraphOsuTrack::Playcount(args) => &args.name,
            GraphOsuTrack::Accuracy(args) => &args.name,
            GraphOsuTrack::Grades(args) => &args.name,
        }
    }

    /// The user of the platform that the arguments name.
    pub fn discord(&self) -> (discord: Option<u64>)
        ensures
            discord == self.discord_spec(),
    {
        match self {
            GraphOsuTrack::PpRank(args) => args.discord,
            GraphOsuTrack::Score(args) => args.discord,
            GraphOsuTrack::HitRatios(args) => args.discord,
            GraphOsuTrack::Playcount(args) => args.discord,
            GraphOsuTrack::Accuracy(args) => args.discord,
            GraphOsuTrack::Grades(args) => args.discord,
        }
    }
}

pub struct GraphPlaycountReplays {
    pub name: Option<String>,
    pub discord: Option<u64>,
    pub playcount: Option<ShowHideOption>,
    pub replays: Option<ShowHideOption>,
    pub badges: Option<ShowHideOption>,
}

pub struct GraphRank {
    pub mode: Option<GameMode>,
    pub name: Option<String>,
    pub from: Option<u8>,
    pub until: Option<u8>,
    pub discord: Option<u64>,
}

pub struct GraphScoreRank {
    pub mode: Option<GameMode>,
    pub name: Option<String>,
    pub from: Option<u8>,
    pub until: Option<u8>,
    pub discord: Option<u64>,
}

pub struct GraphSniped {
    pub mode: Option<GameMode>,
    pub name: Option<String>,
    pub discord: Option<u64>,
}

pub struct GraphSnipeCount {
    pub mode: Option<GameMode>,
    pub name: Option<String>,
    pub discord: Option<u64>,
}

pub struct GraphTop {
    pub order: GraphTopOrder,
    pub mode: Option<GameMode>,
    pub name: Option<String>,
    /// The time zone, in seconds east of Greenwich.
    pub timezone: Option<i32>,
    pub discord: Option<u64>,
}

pub enum Graph {
    MapBpm(GraphMapBpm),
    MapStrains(GraphMapStrains),
    Medals(GraphMedals),
    OsuTrack(GraphOsuTrack),
    PlaycountReplays(GraphPlaycountReplays),
    Rank(GraphRank),
    ScoreRank(GraphScoreRank),
    Sniped(GraphSniped),
    SnipeCount(GraphSnipeCount),
    Top(GraphTop),
}

/// Whose data a graph shows, where it is not the game's own.
#[derive(Clone, Copy, Debug, PartialEq, Eq, Structural)]
pub enum GraphSource {
    OsuTrack,
    Snipes,
}

impl Graph {
    /// The source that the line under the graph names.
    pub open spec fn source_spec(self) -> Option<GraphSource> {
        match self {
            Graph::OsuTrack(_) => Some(GraphSource::OsuTrack),
            Graph::Sniped(_) => Some(GraphSource::Snipes),
            Graph::SnipeCount(_) => Some(GraphSource::Snipes),
            _ => None,
        }
    }

    /// The source that the line under the graph names.
    pub fn source(&self) -> (source: Option<GraphSource>)
        ensures
            source == self.source_spec(),
    {
        match self {
            Graph::OsuTrack(_) => Some(GraphSource::OsuTrack),
            Graph::Sniped(_) => Some(GraphSource::Snipes),
            Graph::SnipeCount(_) => Some(GraphSource::Snipes),
            _ => None,
        }
    }
}

impl GraphSource {
    pub open spec fn text(self) -> Seq<char> {
        match self {
            GraphSource::OsuTrack => "Data provided by ameobea.me/osutrack"@,
            GraphSource::Snipes => "Data provided by snipe.huismetbenen.nl"@,
        }
    }

    /// The line under the graph.
    pub fn footer(self) -> (footer: &'static str)
        ensures
            footer@ == self.text(),
    {
        match self {
            GraphSource::OsuTrack => "Data provided by ameobea.me/osutrack",
            GraphSource::Snipes => "Data provided by snipe.huismetbenen.nl",
        }
    }
}

/// The part of an address that stands for a mode; osu has none.
pub open spec fn mode_path(mode: GameMode) -> Seq<char> {
    match mode {
        GameMode::Osu => ""@,
        GameMode::Taiko => "/taiko"@,
        GameMode::Catch => "/ctb"@,
        GameMode::Mania => "/mania"@,
    }
}

/// The address of a user's page at the site that tracks users.
pub open spec fn osutrack_url(username: Seq<char>, mode: GameMode) -> Seq<char> {
    "https://ameobea.me/osutrack/user/"@ + replaced(username, ' ', "%20"@) + mode_path(mode)
}

/// Builds the address of a user's page at the site that tracks users.
pub fn build_osutrack_url(username: &str, mode: GameMode) -> (url: String)
    ensures
        url@ == osutrack_url(username@, mode),
{
    let mut url = "https://ameobea.me/osutrack/user/".to_owned();
    let name = replace_char(username, ' ', "%20");
    url.append(name.as_str());
    url.append(
        match mode {
            GameMode::Osu => "",
            GameMode::Taiko => "/taiko",
            GameMode::Catch => "/ctb",
            GameMode::Mania => "/mania",
        },
    );
    url
}

#[derive(Clone, Copy, Debug, PartialEq, Eq, Structural)]
pub enum GraphTopOrder {
    Date,
    Index,
    TimeByHour,
    TimeByDay,
}

#[derive(Clone, Copy, Debug, PartialEq, Eq, Structural)]
pub enum ShowHideOption {
    Show,
    Hide,
}

/// Which curves a profile graph holds.
#[derive(Clone, Copy, Debug, PartialEq, Eq, Structural)]
pub struct ProfileGraphFlags {
    pub playcount: bool,
    pub replays: bool,
    pub badges: bool,
}

/// Whether a curve is shown: it is, unless the user hides it.
pub open spec fn shown(option: Option<ShowHideOption>) -> bool {
    option != Some(ShowHideOption::Hide)
}

/// The curves of a profile graph; none where the user hides all three.
pub fn profile_flags(
    playcount: Option<ShowHideOption>,
    replays: Option<ShowHideOption>,
    badges: Option<ShowHideOption>,
) -> (flags: Option<ProfileGraphFlags>)
    ensures
        flags.is_some() == (shown(playcount) || shown(replays) || shown(badges)),
        flags.is_some() ==> flags.unwrap() == (ProfileGraphFlags {
            playcount: shown(playcount),
            replays: shown(replays),
            badges: shown(badges),
        }),
{
    let flags = ProfileGraphFlags {
        playcount: !is_hidden(playcount),
        replays: !is_hidden(replays),
        badges: !is_hidden(badges),
    };
    if flags.playcount || flags.replays || flags.badges {
        Some(flags)
    } else {
        None
    }
}

fn is_hidden(option: Option<ShowHideOption>) -> (hidden: bool)
    ensures
        hidden == !shown(option),
{
    match option {
        Some(ShowHideOption::Hide) => true,
        _ => false,
    }
}

/// The mode of a command: the one given, else the user's own, else osu.
pub fn choose_mode(given: Option<GameMode>, configured: Option<GameMode>) -> (mode: GameMode)
    ensures
        mode == match given {
            Some(m) => m,
            None => match configured {
                Some(m) => m,
                None => GameMode::Osu,
            },
        },
{
    match given {
        Some(m) => m,
        None => match configured {
            Some(m) => m,
            None => GameMode::Osu,
        },
    }
}

/// The time zone of a graph: the one given; else the user's own, but only
/// where the graph is about the user who asks.
pub fn choose_timezone<T>(given: Option<T>, no_user_specified: bool, configured: Option<T>) -> (tz:
    Option<T>)
    ensures
        tz == match given {
            Some(t) => Some(t),
            None => if no_user_specified {
                configured
            } else {
                None
            },
        },
{
    match given {
        Some(t) => Some(t),
        None => if no_user_specified {
            configured
        } else {
            None
        },
    }
}

/// A map or a set of maps, by its id.
#[derive(Clone, Copy, Debug, PartialEq, Eq, Structural)]
pub enum MapIdType {
    Beatmap(u32),
    Mapset(u32),
}

/// Why no map could be found for a graph.
#[derive(Clone, Copy, Debug, PartialEq, Eq, Structural)]
pub enum MapIdError {
    /// The argument names neither a map nor a set.
    Unparsed,
    /// No map was named and the channel's history may not be read.
    NoHistory,
    /// No map was named and the channel's history holds none.
    NothingFound,
    /// A set was found where a map is needed.
    IsSet,
}

impl MapIdError {
    pub open spec fn text(self) -> Seq<char> {
        match self {
            MapIdError::Unparsed =>
                "Failed to parse map url. Be sure you specify a valid map id or url to a map."@,
            MapIdError::NoHistory =>
                "No beatmap specified and lacking permission to search the channel history for maps.\nTry specifying a map either by url or by map id, or give me the \"Read Message History\" permission."@,
            MapIdError::NothingFound =>
                "No beatmap specified and none found in recent channel history. Try specifying a map either by url or by map id."@,
            MapIdError::IsSet => "Looks like you gave me a mapset id, I need a map id though"@,
        }
    }

    /// What the user is told.
    pub fn content(self) -> (content: &'static str)
        ensures
            content@ == self.text(),
    {
        match self {
            MapIdError::Unparsed =>
                "Failed to parse map url. Be sure you specify a valid map id or url to a map.",
            MapIdError::NoHistory =>
                "No beatmap specified and lacking permission to search the channel history for maps.\nTry specifying a map either by url or by map id, or give me the \"Read Message History\" permission.",
            MapIdError::NothingFound =>
                "No beatmap specified and none found in recent channel history. Try specifying a map either by url or by map id.",
            MapIdError::IsSet => "Looks like you gave me a mapset id, I need a map id though",
        }
    }
}

/// What the map argument of a command holds.
#[derive(Clone, Copy, Debug, PartialEq, Eq, Structural)]
pub enum MapArg {
    /// No argument was given.
    Missing,
    /// The argument names neither a map nor a set.
    Unparsed,
    /// The argument names this.
    Id(MapIdType),
}

/// What looking through the channel's history brought.
#[derive(Clone, Copy, Debug, PartialEq, Eq, Structural)]
pub enum History {
    /// The history may not be read.
    NoPermission,
    /// The history holds no map.
    Nothing,
    Found(MapIdType),
}

/// What the map argument alone says: the map, an error, or nothing yet,
/// where the channel's history has to be asked.
pub open spec fn map_id_of_arg(arg: MapArg) -> Option<Result<u32, MapIdError>> {
    match arg {
        MapArg::Missing => None,
        MapArg::Unparsed => Some(Err(MapIdError::Unparsed)),
        MapArg::Id(id) => Some(only_map(id)),
    }
}

pub open spec fn only_map(id: MapIdType) -> Result<u32, MapIdError> {
    match id {
        MapIdType::Beatmap(map_id) => Ok(map_id),
        MapIdType::Mapset(_) => Err(MapIdError::IsSet),
    }
}

/// What the channel's history says where no map was named.
pub open spec fn map_id_of_history(history: History) -> Result<u32, MapIdError> {
    match history {
        History::NoPermission => Err(MapIdError::NoHistory),
        History::Nothing => Err(MapIdError::NothingFound),
        History::Found(id) => only_map(id),
    }
}

/// Finds the map from the argument; answers nothing where the channel's
/// history is to be asked (see [`get_map_id_from_history`]).
pub fn get_map_id(arg: MapArg) -> (id: Option<Result<u32, MapIdError>>)
    ensures
        id == map_id_of_arg(arg),
{
    match arg {
        MapArg::Missing => None,
        MapArg::Unparsed => Some(Err(MapIdError::Unparsed)),
        MapArg::Id(MapIdType::Beatmap(map_id)) => Some(Ok(map_id)),
        MapArg::Id(MapIdType::Mapset(_)) => Some(Err(MapIdError::IsSet)),
    }
}

/// Finds the map from what the channel's history brought.
pub fn get_map_id_from_history(history: History) -> (id: Result<u32, MapIdError>)
    ensures
        id == map_id_of_history(history),
{
    match history {
        History::NoPermission => Err(MapIdError::NoHistory),
        History::Nothing => Err(MapIdError::NothingFound),
        History::Found(MapIdType::Beatmap(map_id)) => Ok(map_id),
        History::Found(MapIdType::Mapset(_)) => Err(MapIdError::IsSet),
    }
}

/// Whether `mods` exist in `mode` and go together there.
pub open spec fn fits_mode(mods: GameModsIntermode, mode: GameMode) -> bool {
    mods_with_mode(mods, mode) matches Some(for_mode) && mods_valid(for_mode)
}

/// The mods as mods of the first mode, of osu, taiko, catch and mania in
/// this order, in which they all exist and go together.
pub open spec fn mods_for_any_mode(mods: GameModsIntermode) -> Option<GameMods> {
    if fits_mode(mods, GameMode::Osu) {
        mods_with_mode(mods, GameMode::Osu)
    } else if fits_mode(mods, GameMode::Taiko) {
        mods_with_mode(mods, GameMode::Taiko)
    } else if fits_mode(mods, GameMode::Catch) {
        mods_with_mode(mods, GameMode::Catch)
    } else if fits_mode(mods, GameMode::Mania) {
        mods_with_mode(mods, GameMode::Mania)
    } else {
        None
    }
}

fn valid_for(mods: &GameModsIntermode, mode: GameMode) -> (for_mode: Option<GameMods>)
    ensures
        for_mode.is_some() == fits_mode(*mods, mode),
        for_mode.is_some() ==> for_mode == mods_with_mode(*mods, mode),
{
    match try_with_mode(mods, mode) {
        Some(for_mode) => if is_valid(&for_mode) {
            Some(for_mode)
        } else {
            None
        },
        None => None,
    }
}

/// Finds a mode for the mods of a graph that is about no mode.
pub fn any_mode_mods(mods: &GameModsIntermode) -> (for_mode: Option<GameMods>)
    ensures
        for_mode == mods_for_any_mode(*mods),
{
    match valid_for(mods, GameMode::Osu) {
        Some(m) => {
            return Some(m);
        },
        None => {},
    }
    match valid_for(mods, GameMode::Taiko) {
        Some(m) => {
            return Some(m);
        },
        None => {},
    }
    match valid_for(mods, GameMode::Catch) {
        Some(m) => {
            return Some(m);
        },
        None => {},
    }
    valid_for(mods, GameMode::Mania)
}

/// What became of the mods of a graph that is about one mode.
pub enum ModeMods {
    Fits(GameMods),
    /// Some of the mods exclude each other.
    Incompatible,
    /// Some of the mods do not exist in the mode.
    WrongMode,
}

pub open spec fn mods_for_mode(mods: GameModsIntermode, mode: GameMode) -> ModeMods {
    match mods_with_mode(mods, mode) {
        Some(for_mode) => if mods_valid(for_mode) {
            ModeMods::Fits(for_mode)
        } else {
            ModeMods::Incompatible
        },
        None => ModeMods::WrongMode,
    }
}

/// Fits the mods of a graph to its mode.
pub fn mode_mods(mods: &GameModsIntermode, mode: GameMode) -> (fitted: ModeMods)
    ensures
        fitted == mods_for_mode(*mods, mode),
{
    match try_with_mode(mods, mode) {
        Some(for_mode) => if is_valid(&for_mode) {
            ModeMods::Fits(for_mode)
        } else {
            ModeMods::Incompatible
        },
        None => ModeMods::WrongMode,
    }
}

/// What is said of a map that the game's servers do not know.
pub open spec fn map_not_found(map_id: u32) -> Seq<char> {
    "Could not find beatmap with id `"@ + decimal(map_id as nat)
        + "`. Did you give me a mapset id instead of a map id?"@
}

/// Builds what is said of a map that the game's servers do not know.
pub fn map_not_found_content(map_id: u32) -> (content: String)
    ensures
        content@ == map_not_found(map_id),
{
    let mut content = "Could not find beatmap with id `".to_owned();
    push_decimal(&mut content, map_id as u64);
    content.append("`. Did you give me a mapset id instead of a map id?");
    content
}

/// What is said of mods that fit no mode. `mods` is the mods as shown.
pub open spec fn fits_no_mode(mods: Seq<char>) -> Seq<char> {
    "Looks like either some mods in `"@ + mods
        + "` are incompatible with each other or do not belong to any single mode"@
}

/// Builds what is said of mods that fit no mode.
pub fn fits_no_mode_content(mods: &str) -> (content: String)
    ensures
        content@ == fits_no_mode(mods@),
{
    let mut content = "Looks like either some mods in `".to_owned();
    content.append(mods);
    content.append("` are incompatible with each other or do not belong to any single mode");
    content
}

/// The name of a mode as it is written out.
pub open spec fn mode_name(mode: GameMode) -> Seq<char> {
    match mode {
        GameMode::Osu => "Osu"@,
        GameMode::Taiko => "Taiko"@,
        GameMode::Catch => "Catch"@,
        GameMode::Mania => "Mania"@,
    }
}

/// What is said of mods that do not fit the mode of a graph; nothing
/// where they fit. `mods` is the mods as shown.
pub open spec fn misfit(fitted: ModeMods, mods: Seq<char>, mode: GameMode) -> Option<Seq<char>> {
    match fitted {
        ModeMods::Fits(_) => None,
        ModeMods::Incompatible => Some(
            "Looks like some mods in `"@ + mods + "` are incompatible with each other"@,
        ),
        ModeMods::WrongMode => Some(
            "The mods `"@ + mods + "` are incompatible with the mode "@ + mode_name(mode),
        ),
    }
}

/// Builds what is said of mods that do not fit the mode of a graph.
pub fn misfit_content(fitted: &ModeMods, mods: &str, mode: GameMode) -> (content: Option<String>)
    ensures
        content.is_some() == misfit(*fitted, mods@, mode).is_some(),
        content.is_some() ==> content.unwrap()@ == misfit(*fitted, mods@, mode).unwrap(),
{
    match fitted {
        ModeMods::Fits(_) => None,
        ModeMods::Incompatible => {
            let mut content = "Looks like some mods in `".to_owned();
            content.append(mods);
            content.append("` are incompatible with each other");
            Some(content)
        },
        ModeMods::WrongMode => {
            let mut content = "The mods `".to_owned();
            content.append(mods);
            content.append("` are incompatible with the mode ");
            content.append(
                match mode {
                    GameMode::Osu => "Osu",
                    GameMode::Taiko => "Taiko",
                    GameMode::Catch => "Catch",
                    GameMode::Mania => "Mania",
                },
            );
            Some(content)
        },
    }
}

/// What is said of a user without top scores.
pub fn no_top_scores() -> (content: &'static str)
    ensures
        content@ == "User's top scores are empty"@,
{
    "User's top scores are empty"
}

/// The word for a mode in a sentence about plays; osu has none.
pub open spec fn mode_word(mode: GameMode) -> Seq<char> {
    match mode {
        GameMode::Osu => ""@,
        GameMode::Taiko => "taiko "@,
        GameMode::Catch => "ctb "@,
        GameMode::Mania => "mania "@,
    }
}

pub fn mode_word_of(mode: GameMode) -> (word: &'static str)
    ensures
        word@ == mode_word(mode),
{
    match mode {
        GameMode::Osu => "",
        GameMode::Taiko => "taiko ",
        GameMode::Catch => "ctb ",
        GameMode::Mania => "mania ",
    }
}

/// The caption of a graph of a user's top scores.
pub open spec fn top_caption(username: Seq<char>, mode: GameMode) -> Seq<char> {
    let genitive = if username.len() > 0 && username.last() == 's' {
        ""@
    } else {
        "s"@
    };
    username + "'"@ + genitive + " "@ + mode_word(mode) + "top200"@
}

/// Builds the caption of a graph of a user's top scores.
pub fn build_top_caption(username: &str, mode: GameMode) -> (caption: String)
    ensures
        caption@ == top_caption(username@, mode),
{
    let chars = chars_of(username);
    let ends_with_s = chars.len() > 0 && chars[chars.len() - 1] == 's';
    let mut caption = username.to_owned();
    caption.append("'");
    if ends_with_s {
        caption.append("");
    } else {
        caption.append("s");
    }
    caption.append(" ");
    caption.append(mode_word_of(mode));
    caption.append("top200");
    caption
}

/// A drawn graph of a map, with what frames it.
pub struct MapResult {
    pub bytes: Vec<u8>,
    pub title: String,
    pub url: String,
}

impl MapResult {
    pub fn new(map: &OsuMap, bytes: Vec<u8>) -> (result: Self)
        ensures
            result.bytes == bytes,
            result.title@ == map.artist@ + " - "@ + map.title@ + " ["@ + map.version@ + "]"@,
            result.url@ == map_url(map.map_id),
    {
        let mut title = map.artist.clone();
        title.append(" - ");
        title.append(map.title.as_str());
        title.append(" [");
        title.append(map.version.as_str());
        title.append("]");
        MapResult { bytes, title, url: build_map_url(map.map_id) }
    }
}

/// The page that frames the graph of a map: the graph as its image, the
/// map as its title and its address.
pub open spec fn framed(result: MapResult) -> EmbedView {
    EmbedView {
        author: None,
        title: Some(result.title@),
        description: None,
        url: Some(result.url@),
        image: Some("attachment://graph.png"@),
        thumbnail: None,
        footer: None,
        fields: Seq::empty(),
    }
}

impl MapResult {
    /// Frames the graph: the page, and the bytes to attach as `graph.png`.
    pub fn into_message(self) -> (message: (Embed, Vec<u8>))
        ensures
            message.0@ == framed(self),
            message.1 == self.bytes,
    {
        let embed = Embed {
            author: None,
            title: Some(self.title),
            description: None,
            url: Some(self.url),
            image: Some("attachment://graph.png".to_owned()),
            thumbnail: None,
            footer: None,
            fields: Vec::new(),
        };
        assert(embed@.fields =~= Seq::empty());
        (embed, self.bytes)
    }
}

/// `image::DynamicImage`, an image in any of its pixel formats. Its inside
/// is not looked into here.
#[verifier::external_type_specification]
#[verifier::external_body]
pub struct ExDynamicImage(DynamicImage);

/// The width and the height of an image.
pub uninterp spec fn image_size(img: DynamicImage) -> (u32, u32);

/// The pixels of an image, row by row, each as red, green, blue and alpha.
pub uninterp spec fn image_rgba(img: DynamicImage) -> Seq<u8>;

/// `DynamicImage`'s `dimensions`: the width and the height.
#[verifier::external_body]
fn dimensions(img: &DynamicImage) -> (size: (u32, u32))
    ensures
        size == image_size(*img),
{
    image::GenericImageView::dimensions(img)
}

/// `DynamicImage::into_rgba8`, and the buffer of what it gives: the pixels
/// as four bytes each.
#[verifier::external_body]
fn into_rgba8(img: DynamicImage) -> (bytes: Vec<u8>)
    ensures
        bytes@ == image_rgba(img),
{
    img.into_rgba8().into_raw()
}

/// An image to be drawn into a graph at a place.
pub struct BitMapElement<C> {
    img: Vec<u8>,
    size: (u32, u32),
    pos: C,
}

impl<C> BitMapElement<C> {
    pub closed spec fn img_spec(self) -> Seq<u8> {
        self.img@
    }

    pub closed spec fn size_spec(self) -> (u32, u32) {
        self.size
    }

    pub closed spec fn pos_spec(self) -> C {
        self.pos
    }

    /// The image, which is to have its final size already, at `pos`.
    pub fn new(img: DynamicImage, pos: C) -> (element: Self)
        ensures
            element.img_spec() == image_rgba(img),
            element.size_spec() == image_size(img),
            element.pos_spec() == pos,
    {
        let size = dimensions(&img);
        let img = into_rgba8(img);
        Self { img, size, pos }
    }

    /// An element from pixels that are at hand.
    pub fn from_raw(img: Vec<u8>, size: (u32, u32), pos: C) -> (element: Self)
        ensures
            element.img_spec() == img@,
            element.size_spec() == size,
            element.pos_spec() == pos,
    {
        Self { img, size, pos }
    }

    pub fn img(&self) -> (img: &Vec<u8>)
        ensures
            img@ == self.img_spec(),
    {
        &self.img
    }

    pub fn size(&self) -> (size: (u32, u32))
        ensures
            size == self.size_spec(),
    {
        self.size
    }

    pub fn pos(&self) -> (pos: &C)
        ensures
            *pos == self.pos_spec(),
    {
        &self.pos
    }
}

} // verus!
