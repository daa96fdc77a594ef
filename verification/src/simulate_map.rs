//! The map that a simulation runs on.

use crate::mods::GameMode;
use crate::text::{decimal, decimal_string};
use rosu_pp::Beatmap;
use vstd::prelude::*;

verus! {

/// `rosu_pp::Beatmap`, a map as the calculator reads it. Its inside is
/// not looked into here.
#[verifier::external_type_specification]
#[verifier::external_body]
pub struct ExBeatmap(Beatmap);

/// How many hit objects the map holds.
pub uninterp spec fn beatmap_objects(map: Beatmap) -> nat;

/// The mode that the map is played in.
pub uninterp spec fn beatmap_mode(map: Beatmap) -> GameMode;

/// The length of `Beatmap`'s `hit_objects`: the number of hit objects.
#[verifier::external_body]
fn hit_object_count(map: &Beatmap) -> (count: usize)
    ensures
        count == beatmap_objects(*map),
{
    map.hit_objects.len()
}

/// `Beatmap`'s `mode`, variant for variant.
#[verifier::external_body]
fn mode_of(map: &Beatmap) -> (mode: GameMode)
    ensures
        mode == beatmap_mode(*map),
{
    match map.mode {
        rosu_pp::model::mode::GameMode::Osu => GameMode::Osu,
        rosu_pp::model::mode::GameMode::Taiko => GameMode::Taiko,
        rosu_pp::model::mode::GameMode::Catch => GameMode::Catch,
        rosu_pp::model::mode::GameMode::Mania => GameMode::Mania,
    }
}

/// A text as `Debug` shows it: between quotes, with what cannot be shown
/// as it is written out.
pub uninterp spec fn quoted(text: Seq<char>) -> Seq<char>;

/// `str`'s `Debug`, through `format!`. The result depends on the text
/// alone.
#[verifier::external_body]
fn debug_text(text: &str) -> (shown: String)
    ensures
        shown@ == quoted(text@),
{
    format!("{:?}", text)
}

/// A map of the game's servers, with what a page says of it. The texts are
/// such as they are to be shown.
pub struct OsuMap {
    pub pp_map: Beatmap,
    pub map_id: u32,
    pub artist: String,
    pub title: String,
    pub version: String,
    pub creator: String,
    pub status: String,
    pub cover: String,
    pub mode_icon: String,
}

/// A map that a user attached as a file.
pub struct AttachedSimulateMap {
    pub pp_map: Beatmap,
    pub filename: String,
}

pub enum SimulateMap {
    Full(OsuMap),
    Attached(AttachedSimulateMap),
}

impl SimulateMap {
    /// The map as the calculator reads it.
    pub open spec fn beatmap(self) -> Beatmap {
        match self {
            SimulateMap::Full(map) => map.pp_map,
            SimulateMap::Attached(map) => map.pp_map,
        }
    }

    /// The same map with another calculator map in it.
    pub open spec fn with_beatmap(self, pp_map: Beatmap) -> SimulateMap {
        match self {
            SimulateMap::Full(map) => SimulateMap::Full(OsuMap { pp_map, ..map }),
            SimulateMap::Attached(map) => SimulateMap::Attached(
                AttachedSimulateMap { pp_map, ..map },
            ),
        }
    }

    /// What stands for the map in a log: the id of a map of the servers,
    /// the quoted name of an attached file.
    pub open spec fn label(self) -> Seq<char> {
        match self {
            SimulateMap::Full(map) => decimal(map.map_id as nat),
            SimulateMap::Attached(map) => quoted(map.filename@),
        }
    }

    /// What stands for the map in a log.
    pub fn fmt(&self) -> (label: String)
        ensures
            label@ == self.label(),
    {
        match self {
            SimulateMap::Full(map) => decimal_string(map.map_id as u64),
            SimulateMap::Attached(map) => debug_text(map.filename.as_str()),
        }
    }

    pub fn mode(&self) -> (mode: GameMode)
        ensures
            mode == beatmap_mode(self.beatmap()),
    {
        mode_of(self.pp_map())
    }

    pub fn pp_map(&self) -> (map: &Beatmap)
        ensures
            *map == self.beatmap(),
    {
        match self {
            SimulateMap::Full(map) => &map.pp_map,
            SimulateMap::Attached(map) => &map.pp_map,
        }
    }

    pub fn pp_map_mut(&mut self) -> (map: &mut Beatmap)
        ensures
            *map == old(self).beatmap(),
            *final(self) == old(self).with_beatmap(*final(map)),
    {
        match self {
            SimulateMap::Full(map) => &mut map.pp_map,
            SimulateMap::Attached(map) => &mut map.pp_map,
        }
    }

    /// The number of hit objects, cut to thirty-two bits.
    pub fn n_objects(&self) -> (count: u32)
        ensures
            count == beatmap_objects(self.beatmap()) % 0x1_0000_0000,
    {
        let count = hit_object_count(self.pp_map()) as u64;
        (count % 0x1_0000_0000) as u32
    }
}

} // verus!
