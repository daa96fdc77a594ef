//! Game modes and mod combinations. The combinations themselves are kept as
//! the values of the mods crate; what is known of them here is what its
//! functions say.

use rosu_v2::model::mods::{GameMods, GameModsIntermode};
use vstd::prelude::*;

verus! {

/// The four ways to play.
#[derive(Clone, Copy, Debug, PartialEq, Eq, Structural)]
pub enum GameMode {
    Osu,
    Taiko,
    Catch,
    Mania,
}

/// `rosu_mods::GameMods`, a combination of mods with their settings. Its
/// inside is not looked into here.
#[verifier::external_type_specification]
#[verifier::external_body]
pub struct ExGameMods(GameMods);

/// `rosu_mods::GameModsIntermode`, a combination of mods that belongs to no
/// mode yet. Its inside is not looked into here.
#[verifier::external_type_specification]
#[verifier::external_body]
pub struct ExGameModsIntermode(GameModsIntermode);

/// The mods of `mods` as mods of `mode`, where each of them exists there.
pub uninterp spec fn mods_with_mode(mods: GameModsIntermode, mode: GameMode) -> Option<GameMods>;

/// Whether no mod of `mods` excludes another of them.
pub uninterp spec fn mods_valid(mods: GameMods) -> bool;

/// Whether the two hold the same mods with the same settings.
pub uninterp spec fn mods_equal(a: GameMods, b: GameMods) -> bool;

/// `GameModsIntermode::from_acronyms`: splits a run of acronyms into mods,
/// whatever the text is. Nothing is claimed of the result.
#[verifier::external_body]
pub(crate) fn read_acronyms(text: &str) -> GameModsIntermode {
    GameModsIntermode::from_acronyms(text)
}

/// `GameModsIntermode::try_with_mode`: the same mods for one mode, or
/// nothing where one of them does not exist in that mode. The result
/// depends on the mods and the mode alone.
#[verifier::external_body]
pub(crate) fn try_with_mode(mods: &GameModsIntermode, mode: GameMode) -> (for_mode: Option<
    GameMods,
>)
    ensures
        for_mode == mods_with_mode(*mods, mode),
{
    mods.try_with_mode(
        match mode {
            GameMode::Osu => rosu_v2::model::GameMode::Osu,
            GameMode::Taiko => rosu_v2::model::GameMode::Taiko,
            GameMode::Catch => rosu_v2::model::GameMode::Catch,
            GameMode::Mania => rosu_v2::model::GameMode::Mania,
        },
    )
}

/// `GameMods::is_valid`: whether the combination holds no two mods that
/// exclude each other. The result depends on the mods alone.
#[verifier::external_body]
pub(crate) fn is_valid(mods: &GameMods) -> (valid: bool)
    ensures
        valid == mods_valid(*mods),
{
    mods.is_valid()
}

/// `GameMods`' `==`: compares the mods and their settings. The result
/// depends on the two combinations alone.
#[verifier::external_body]
pub(crate) fn same_mods(a: &GameMods, b: &GameMods) -> (same: bool)
    ensures
        same == mods_equal(*a, *b),
{
    a == b
}

/// `GameMods`' `clone`: a copy that is the same value.
#[verifier::external_body]
pub(crate) fn copy_mods(mods: &GameMods) -> (copy: GameMods)
    ensures
        copy == *mods,
{
    mods.clone()
}

} // verus!
