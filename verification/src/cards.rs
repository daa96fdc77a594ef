//! The card command: its arguments and what it tells a user for whom no
//! card can be made.

use crate::args::{name_args, read_name_args, NameArgs};
use crate::embed::opt_text;
use crate::mods::GameMode;
use vstd::prelude::*;

verus! {

pub struct Card {
    pub mode: Option<GameMode>,
    pub name: Option<String>,
    pub discord: Option<u64>,
}

impl Card {
    /// Reads the arguments from the words behind the command.
    pub fn args(mode: Option<GameMode>, words: &Vec<String>) -> (args: Self)
        ensures
            args.mode == mode,
            opt_text(args.name) == name_args(words@).0,
            args.discord == name_args(words@).1,
    {
        let NameArgs { name, discord } = read_name_args(words);
        Card { mode, name, discord }
    }
}

/// What a card cannot be made without.
#[derive(Clone, Copy, Debug, PartialEq, Eq, Structural)]
pub enum CardIssue {
    /// The user has no scores in the mode.
    NoScores,
    /// The card could not be drawn.
    NotDrawn,
}

impl CardIssue {
    pub open spec fn text(self) -> Seq<char> {
        match self {
            CardIssue::NoScores => "Looks like they don't have any scores on that mode"@,
            CardIssue::NotDrawn => "Failed to draw the card :("@,
        }
    }

    /// What the user is told.
    pub fn content(self) -> (content: &'static str)
        ensures
            content@ == self.text(),
    {
        match self {
            CardIssue::NoScores => "Looks like they don't have any scores on that mode",
            CardIssue::NotDrawn => "Failed to draw the card :(",
        }
    }
}

/// The counts of medals on a card, cut to thirty-two bits: those of the
/// user, and those that there are.
pub fn medal_counts(medals: usize, total_medals: usize) -> (counts: (u32, u32))
    ensures
        counts.0 == (medals as int) % 0x1_0000_0000,
        counts.1 == (total_medals as int) % 0x1_0000_0000,
{
    (((medals as u64) % 0x1_0000_0000) as u32, ((total_medals as u64) % 0x1_0000_0000) as u32)
}

} // verus!
