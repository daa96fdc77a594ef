//! Following a multiplayer match in a channel: what the commands read from
//! their arguments and what they answer.

use crate::text::{
    decimal, leading_digits, parse_u32, parse_unsigned, push_decimal, starts_with, strip_prefix,
    take_digits,
};
use vstd::prelude::*;

verus! {

/// Whether the match is followed in the channel itself or in a new thread.
#[derive(Clone, Copy, Debug, PartialEq, Eq, Structural)]
pub enum ThreadChannel {
    Channel,
    Thread,
}

pub struct MatchliveAdd {
    pub match_url: String,
    pub thread: ThreadChannel,
}

pub struct MatchliveRemove {
    pub match_url: String,
}

pub enum Matchlive {
    Add(MatchliveAdd),
    Remove(MatchliveRemove),
}

/// The id behind `prefix` in a link: the digits that follow it.
pub open spec fn linked_id(text: Seq<char>, prefix: Seq<char>) -> Option<u32> {
    if starts_with(text, prefix) {
        match parse_unsigned(
            leading_digits(text.subrange(prefix.len() as int, text.len() as int)),
            u32::MAX as nat,
        ) {
            Some(id) => Some(id as u32),
            None => None,
        }
    } else {
        None
    }
}

/// The id of the match that `text` names: `text` is the id itself, or a
/// link to the match on the game's site.
pub open spec fn match_id(text: Seq<char>) -> Option<u32> {
    match parse_unsigned(text, u32::MAX as nat) {
        Some(id) => Some(id as u32),
        None => match linked_id(text, "https://osu.ppy.sh/community/matches/"@) {
            Some(id) => Some(id),
            None => linked_id(text, "https://osu.ppy.sh/mp/"@),
        },
    }
}

fn id_behind(text: &str, prefix: &str) -> (id: Option<u32>)
    ensures
        id == linked_id(text@, prefix@),
{
    match strip_prefix(text, prefix) {
        Some(rest) => parse_u32(take_digits(rest)),
        None => None,
    }
}

/// Reads the id of a match from its id or from a link to it.
pub fn get_osu_match_id(text: &str) -> (id: Option<u32>)
    ensures
        id == match_id(text@),
{
    match parse_u32(text) {
        Some(id) => Some(id),
        None => match id_behind(text, "https://osu.ppy.sh/community/matches/") {
            Some(id) => Some(id),
            None => id_behind(text, "https://osu.ppy.sh/mp/"),
        },
    }
}

/// What a user is told whose text names no match.
pub open spec fn no_match_id() -> Seq<char> {
    "Failed to parse match url.\nBe sure to provide either a match id or the multiplayer link to a match"@
}

/// The id of the match that `match_url` names, or what to tell the user.
pub fn parse_match_id(match_url: &str) -> (id: Result<u32, &'static str>)
    ensures
        id.is_ok() == match_id(match_url@).is_some(),
        id matches Ok(n) ==> Some(n) == match_id(match_url@),
        id matches Err(content) ==> content@ == no_match_id(),
{
    match get_osu_match_id(match_url) {
        Some(id) => Ok(id),
        None => {
            let content =
                "Failed to parse match url.\nBe sure to provide either a match id or the multiplayer link to a match";
            Err(content)
        },
    }
}

/// What the command that starts to follow a match does about a thread.
#[derive(Clone, Copy, Debug, PartialEq, Eq, Structural)]
pub enum ThreadPlan {
    /// The match is followed in the channel.
    Stay,
    /// Threads cannot be had here: the user is told so.
    Unavailable,
    /// The permission to open a thread is missing: the user is told so.
    LackingPermission,
    /// A thread is to be opened.
    Create,
}

pub open spec fn thread_plan_of(thread: ThreadChannel, in_guild: bool, can_create: bool)
    -> ThreadPlan {
    match thread {
        ThreadChannel::Channel => ThreadPlan::Stay,
        ThreadChannel::Thread => if !in_guild {
            ThreadPlan::Unavailable
        } else if !can_create {
            ThreadPlan::LackingPermission
        } else {
            ThreadPlan::Create
        },
    }
}

/// Decides about the thread, from where the command was given and what
/// the bot may do there.
pub fn thread_plan(thread: ThreadChannel, in_guild: bool, can_create: bool) -> (plan: ThreadPlan)
    ensures
        plan == thread_plan_of(thread, in_guild, can_create),
{
    match thread {
        ThreadChannel::Channel => ThreadPlan::Stay,
        ThreadChannel::Thread => if !in_guild {
            ThreadPlan::Unavailable
        } else if !can_create {
            ThreadPlan::LackingPermission
        } else {
            ThreadPlan::Create
        },
    }
}

/// What the user is told where the permission to open threads is missing.
pub fn lacking_thread_permission() -> (content: &'static str)
    ensures
        content@ == "I'm lacking the permission to create public threads"@,
{
    "I'm lacking the permission to create public threads"
}

/// The name of the thread for a match.
pub fn thread_name(match_id: u32) -> (name: String)
    ensures
        name@ == "Live tracking match id "@ + decimal(match_id as nat),
{
    let mut name = "Live tracking match id ".to_owned();
    push_decimal(&mut name, match_id as u64);
    name
}

/// The code by which the platform says that a channel of this kind takes
/// no thread.
pub const INVALID_ACTION_FOR_CHANNEL_TYPE: u64 = 50024;

/// Whether the platform's refusal to open a thread means that the channel
/// takes none, so that the user is told so rather than of a failure.
pub fn threads_unavailable(code: Option<u64>) -> (unavailable: bool)
    ensures
        unavailable == (code == Some(INVALID_ACTION_FOR_CHANNEL_TYPE)),
{
    match code {
        Some(code) => code == INVALID_ACTION_FOR_CHANNEL_TYPE,
        None => false,
    }
}

/// How the attempt to follow a match went.
#[derive(Clone, Copy, Debug, PartialEq, Eq, Structural)]
pub enum MatchTrackResult {
    Added,
    Capped,
    Duplicate,
    Error,
    NotFound,
    Private,
}

/// What the user is told after the attempt to follow a match; nothing
/// where it went well. `api_issue` is what stands for a failure of the
/// game's servers.
pub open spec fn track_content(result: MatchTrackResult, api_issue: Seq<char>) -> Option<
    Seq<char>,
> {
    match result {
        MatchTrackResult::Added => None,
        MatchTrackResult::Capped => Some("Channels can track at most three games at a time"@),
        MatchTrackResult::Duplicate => Some(
            "That match is already being tracking in this channel"@,
        ),
        MatchTrackResult::Error => Some(api_issue),
        MatchTrackResult::NotFound => Some(
            "The osu!api returned a 404 indicating an invalid match id"@,
        ),
        MatchTrackResult::Private => Some("The match can't be tracked because it is private"@),
    }
}

/// Builds what the user is told after the attempt to follow a match.
pub fn track_reply<'a>(result: MatchTrackResult, api_issue: &'a str) -> (content: Option<&'a str>)
    ensures
        content.is_some() == track_content(result, api_issue@).is_some(),
        content.is_some() ==> content.unwrap()@ == track_content(result, api_issue@).unwrap(),
{
    match result {
        MatchTrackResult::Added => None,
        MatchTrackResult::Capped => Some("Channels can track at most three games at a time"),
        MatchTrackResult::Duplicate => Some("That match is already being tracking in this channel"),
        MatchTrackResult::Error => Some(api_issue),
        MatchTrackResult::NotFound => Some(
            "The osu!api returned a 404 indicating an invalid match id",
        ),
        MatchTrackResult::Private => Some("The match can't be tracked because it is private"),
    }
}

/// What the command without its slash needs to start: a match.
pub fn missing_match() -> (content: &'static str)
    ensures
        content@ == "You must specify either a match id or a multiplayer link to a match"@,
{
    "You must specify either a match id or a multiplayer link to a match"
}

/// The arguments of the command that stops following, from the first word
/// behind the command: none where there is no word, and what to tell the
/// user where the word names no match.
pub fn prefix_remove_args(arg: Option<&str>) -> (args: Result<Option<MatchliveRemove>, &'static str>)
    ensures
        arg is None ==> args == Ok::<Option<MatchliveRemove>, &'static str>(None),
        arg matches Some(url) ==> {
            &&& args.is_ok() == match_id(url@).is_some()
            &&& args matches Ok(found) ==> found is Some && found.unwrap().match_url@ == url@
            &&& args matches Err(content) ==> content@ == no_match_id()
        },
{
    match arg {
        Some(url) => match parse_match_id(url) {
            Ok(_) => Ok(Some(MatchliveRemove { match_url: url.to_owned() })),
            Err(content) => Err(content),
        },
        None => Ok(None),
    }
}

/// Which match the command that stops following is about.
pub enum RemovalTarget {
    /// The match that the arguments name.
    Id(u32),
    /// The arguments name no match: the user is told so.
    Invalid(&'static str),
    /// There are no arguments: it is the one match that the channel
    /// follows, which the caller is to look up.
    AskChannel,
}

/// Finds the match to stop following from the arguments.
pub fn removal_target(args: &Option<MatchliveRemove>) -> (target: RemovalTarget)
    ensures
        match *args {
            None => target is AskChannel,
            Some(a) => match match_id(a.match_url@) {
                Some(id) => (target matches RemovalTarget::Id(n) && n == id),
                None => (target matches RemovalTarget::Invalid(content) && content@
                    == no_match_id()),
            },
        },
{
    match args {
        Some(a) => match parse_match_id(a.match_url.as_str()) {
            Ok(id) => RemovalTarget::Id(id),
            Err(content) => RemovalTarget::Invalid(content),
        },
        None => RemovalTarget::AskChannel,
    }
}

pub open spec fn not_one_match() -> Seq<char> {
    "The channel does not track exactly one match and the match id could not be parsed from the first argument.\nTry specifying the match id as first argument."@
}

/// The match of a channel that follows exactly one, or what to tell the
/// user where it follows none or several.
pub fn channel_match(single: Option<u32>) -> (id: Result<u32, &'static str>)
    ensures
        single matches Some(n) ==> id == Ok::<u32, &'static str>(n),
        single is None ==> (id matches Err(content) && content@ == not_one_match()),
{
    match single {
        Some(id) => Ok(id),
        None => Err(
            "The channel does not track exactly one match and the match id could not be parsed from the first argument.\nTry specifying the match id as first argument.",
        ),
    }
}

/// What the user is told after a match was to be dropped.
pub open spec fn removal_content(match_id: u32, removed: bool) -> Seq<char> {
    if removed {
        "Stopped live tracking [the match](https://osu.ppy.sh/community/matches/"@ + decimal(
            match_id as nat,
        ) + ")"@
    } else {
        "The match wasn't tracked in this channel"@
    }
}

/// Builds what the user is told after a match was to be dropped.
pub fn removal_reply(match_id: u32, removed: bool) -> (content: String)
    ensures
        content@ == removal_content(match_id, removed),
{
    if removed {
        let mut content =
            "Stopped live tracking [the match](https://osu.ppy.sh/community/matches/".to_owned();
        push_decimal(&mut content, match_id as u64);
        content.append(")");
        content
    } else {
        "The match wasn't tracked in this channel".to_owned()
    }
}

} // verus!
