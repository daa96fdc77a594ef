//! The list of a user's recent plays: the arguments of the command and
//! what it decides before the plays are fetched.

use crate::args::{get_mention_user, mentioned_user};
use crate::embed::opt_text;
use crate::graphs::{mode_word, mode_word_of};
use crate::mods::GameMode;
use crate::text::{key_value, lowered, split_key_value, text_eq, to_ascii_lowercase};
use vstd::prelude::*;

verus! {

#[derive(Clone, Copy, Debug, PartialEq, Eq, Structural)]
pub enum GradeOption {
    SS,
    S,
    A,
    B,
    C,
    D,
    F,
}

#[derive(Clone, Copy, Debug, PartialEq, Eq, Structural)]
pub enum ScoreOrder {
    Acc,
    Bpm,
    Combo,
    Date,
    Length,
    Misses,
    ModsCount,
    Pp,
    RankedDate,
    Score,
    Stars,
}

#[derive(Clone, Copy, Debug, PartialEq, Eq, Structural)]
pub enum RecentListUnique {
    HighestPp,
    HighestScore,
}

pub struct RecentList {
    pub mode: Option<GameMode>,
    pub name: Option<String>,
    pub query: Option<String>,
    pub grade: Option<GradeOption>,
    pub sort: Option<ScoreOrder>,
    pub passes: Option<bool>,
    pub mods: Option<String>,
    pub unique: Option<RecentListUnique>,
    pub discord: Option<u64>,
    /// Whether scores are shown as the stable client counts them.
    pub score_data: Option<bool>,
}

/// Why the words behind the command could not be read.
pub enum ArgsError {
    Pass,
    Fail,
    Grade,
    Unrecognized(String),
}

pub enum ArgsErrorView {
    Pass,
    Fail,
    Grade,
    Unrecognized(Seq<char>),
}

impl View for ArgsError {
    type V = ArgsErrorView;

    open spec fn view(&self) -> ArgsErrorView {
        match self {
            ArgsError::Pass => ArgsErrorView::Pass,
            ArgsError::Fail => ArgsErrorView::Fail,
            ArgsError::Grade => ArgsErrorView::Grade,
            ArgsError::Unrecognized(key) => ArgsErrorView::Unrecognized(key@),
        }
    }
}

impl ArgsErrorView {
    pub open spec fn text(self) -> Seq<char> {
        match self {
            ArgsErrorView::Pass => "Failed to parse `pass`. Must be either `true` or `false`."@,
            ArgsErrorView::Fail => "Failed to parse `fail`. Must be either `true` or `false`."@,
            ArgsErrorView::Grade =>
                "Failed to parse `grade`. Must be either `SS`, `S`, `A`, `B`, `C`, `D`, or `F`."@,
            ArgsErrorView::Unrecognized(key) => "Unrecognized option `"@ + key
                + "`.\nAvailable options are: `grade` or `pass`."@,
        }
    }
}

impl ArgsError {
    /// What the user is told.
    pub fn content(&self) -> (content: String)
        ensures
            content@ == self@.text(),
    {
        match self {
            ArgsError::Pass => "Failed to parse `pass`. Must be either `true` or `false`.".to_owned(),
            ArgsError::Fail => "Failed to parse `fail`. Must be either `true` or `false`.".to_owned(),
            ArgsError::Grade =>
                "Failed to parse `grade`. Must be either `SS`, `S`, `A`, `B`, `C`, `D`, or `F`.".to_owned(),
            ArgsError::Unrecognized(key) => {
                let mut content = "Unrecognized option `".to_owned();
                content.append(key.as_str());
                content.append("`.\nAvailable options are: `grade` or `pass`.");
                content
            },
        }
    }
}

/// The yes or no that a value spells.
pub open spec fn truth(value: Seq<char>) -> Option<bool> {
    if value == "true"@ || value == "t"@ || value == "1"@ {
        Some(true)
    } else if value == "false"@ || value == "f"@ || value == "0"@ {
        Some(false)
    } else {
        None
    }
}

/// The grade that a value spells.
pub open spec fn grade_of(value: Seq<char>) -> Option<GradeOption> {
    if value == "ss"@ {
        Some(GradeOption::SS)
    } else if value == "s"@ {
        Some(GradeOption::S)
    } else if value == "a"@ {
        Some(GradeOption::A)
    } else if value == "b"@ {
        Some(GradeOption::B)
    } else if value == "c"@ {
        Some(GradeOption::C)
    } else if value == "d"@ {
        Some(GradeOption::D)
    } else if value == "f"@ {
        Some(GradeOption::F)
    } else {
        None
    }
}

fn read_truth(value: &str) -> (read: Option<bool>)
    ensures
        read == truth(value@),
{
    if text_eq(value, "true") || text_eq(value, "t") || text_eq(value, "1") {
        Some(true)
    } else if text_eq(value, "false") || text_eq(value, "f") || text_eq(value, "0") {
        Some(false)
    } else {
        None
    }
}

fn read_grade(value: &str) -> (read: Option<GradeOption>)
    ensures
        read == grade_of(value@),
{
    if text_eq(value, "ss") {
        Some(GradeOption::SS)
    } else if text_eq(value, "s") {
        Some(GradeOption::S)
    } else if text_eq(value, "a") {
        Some(GradeOption::A)
    } else if text_eq(value, "b") {
        Some(GradeOption::B)
    } else if text_eq(value, "c") {
        Some(GradeOption::C)
    } else if text_eq(value, "d") {
        Some(GradeOption::D)
    } else if text_eq(value, "f") {
        Some(GradeOption::F)
    } else {
        None
    }
}

/// What the words read so far have set.
pub struct ListArgs {
    pub name: Option<Seq<char>>,
    pub discord: Option<u64>,
    pub grade: Option<GradeOption>,
    pub passes: Option<bool>,
}

/// What an option `key=value` sets.
pub open spec fn option_step(state: ListArgs, key: Seq<char>, value: Seq<char>) -> Result<
    ListArgs,
    ArgsErrorView,
> {
    if key == "pass"@ || key == "p"@ || key == "passes"@ {
        match truth(value) {
            Some(b) => Ok(ListArgs { passes: Some(b), ..state }),
            None => Err(ArgsErrorView::Pass),
        }
    } else if key == "fail"@ || key == "fails"@ || key == "f"@ {
        match truth(value) {
            Some(b) => Ok(ListArgs { passes: Some(!b), ..state }),
            None => Err(ArgsErrorView::Fail),
        }
    } else if key == "grade"@ || key == "g"@ {
        match grade_of(value) {
            Some(g) => Ok(ListArgs { grade: Some(g), ..state }),
            None => Err(ArgsErrorView::Grade),
        }
    } else {
        Err(ArgsErrorView::Unrecognized(key))
    }
}

/// What one word sets: an option where it holds an equals sign behind its
/// start, else a user of the platform, else the name.
pub open spec fn word_step(state: ListArgs, word: Seq<char>) -> Result<ListArgs, ArgsErrorView> {
    match key_value(word, '=') {
        Some((key, value)) => option_step(state, key, value),
        None => match mentioned_user(word) {
            Some(id) => Ok(ListArgs { discord: Some(id), ..state }),
            None => Ok(ListArgs { name: Some(word), ..state }),
        },
    }
}

/// What the words set, read from the first on in small letters, up to the
/// first that cannot be read.
pub open spec fn words_read(words: Seq<String>) -> Result<ListArgs, ArgsErrorView>
    decreases words.len(),
{
    if words.len() == 0 {
        Ok(ListArgs { name: None, discord: None, grade: None, passes: None })
    } else {
        match words_read(words.drop_last()) {
            Ok(state) => word_step(state, lowered(words.last()@)),
            Err(e) => Err(e),
        }
    }
}

/// What the first three words set. Where they say whether passes or fails
/// are wanted, a grade that they name is dropped.
pub open spec fn list_args(words: Seq<String>) -> Result<ListArgs, ArgsErrorView> {
    let first = if words.len() > 3 {
        words.subrange(0, 3)
    } else {
        words
    };
    match words_read(first) {
        Ok(state) => if state.passes is Some {
            Ok(ListArgs { grade: None, ..state })
        } else {
            Ok(state)
        },
        Err(e) => Err(e),
    }
}

struct ReadArgs {
    name: Option<String>,
    discord: Option<u64>,
    grade: Option<GradeOption>,
    passes: Option<bool>,
}

impl ReadArgs {
    spec fn model(self) -> ListArgs {
        ListArgs {
            name: opt_text(self.name),
            discord: self.discord,
            grade: self.grade,
            passes: self.passes,
        }
    }
}

fn read_option(state: ReadArgs, key: &str, value: &str) -> (next: Result<ReadArgs, ArgsError>)
    ensures
        next.is_ok() == option_step(state.model(), key@, value@).is_ok(),
        next matches Ok(s) ==> Ok::<ListArgs, ArgsErrorView>(s.model()) == option_step(
            state.model(),
            key@,
            value@,
        ),
        next matches Err(e) ==> Err::<ListArgs, ArgsErrorView>(e@) == option_step(
            state.model(),
            key@,
            value@,
        ),
{
    if text_eq(key, "pass") || text_eq(key, "p") || text_eq(key, "passes") {
        match read_truth(value) {
            Some(b) => Ok(ReadArgs { passes: Some(b), ..state }),
            None => Err(ArgsError::Pass),
        }
    } else if text_eq(key, "fail") || text_eq(key, "fails") || text_eq(key, "f") {
        match read_truth(value) {
            Some(b) => Ok(ReadArgs { passes: Some(!b), ..state }),
            None => Err(ArgsError::Fail),
        }
    } else if text_eq(key, "grade") || text_eq(key, "g") {
        match read_grade(value) {
            Some(g) => Ok(ReadArgs { grade: Some(g), ..state }),
            None => Err(ArgsError::Grade),
        }
    } else {
        Err(ArgsError::Unrecognized(key.to_owned()))
    }
}

fn read_word(state: ReadArgs, word: &str) -> (next: Result<ReadArgs, ArgsError>)
    ensures
        next.is_ok() == word_step(state.model(), word@).is_ok(),
        next matches Ok(s) ==> Ok::<ListArgs, ArgsErrorView>(s.model()) == word_step(
            state.model(),
            word@,
        ),
        next matches Err(e) ==> Err::<ListArgs, ArgsErrorView>(e@) == word_step(
            state.model(),
            word@,
        ),
{
    match split_key_value(word, '=') {
        Some((key, value)) => read_option(state, key, value),
        None => match get_mention_user(word) {
            Some(id) => Ok(ReadArgs { discord: Some(id), ..state }),
            None => Ok(ReadArgs { name: Some(word.to_owned()), ..state }),
        },
    }
}

impl RecentList {
    /// Whether the arguments are what `read` says, and nothing more.
    pub open spec fn is_read(self, mode: Option<GameMode>, read: ListArgs) -> bool {
        &&& self.mode == mode
        &&& opt_text(self.name) == read.name
        &&& self.discord == read.discord
        &&& self.grade == read.grade
        &&& self.passes == read.passes
        &&& self.query is None
        &&& self.sort is None
        &&& self.mods is None
        &&& self.unique is None
        &&& self.score_data is None
    }

    /// Reads the arguments from the words behind the command.
    pub fn args(mode: Option<GameMode>, words: &Vec<String>) -> (args: Result<Self, ArgsError>)
        ensures
            args.is_ok() == list_args(words@).is_ok(),
            args matches Ok(a) ==> a.is_read(mode, list_args(words@)->Ok_0),
            args matches Err(e) ==> Err::<ListArgs, ArgsErrorView>(e@) == list_args(words@),
    {
        let n: usize = if words.len() > 3 {
            3
        } else {
            words.len()
        };
        let ghost first = words@.subrange(0, n as int);
        assert(words@.len() <= 3 ==> first == words@);
        assert(words@.len() > 3 ==> n == 3);
        let mut state = ReadArgs { name: None, discord: None, grade: None, passes: None };
        let mut i: usize = 0;
        assert(first.subrange(0, 0) =~= Seq::<String>::empty());
        while i < n
            invariant
                i <= n <= words@.len(),
                first == words@.subrange(0, n as int),
                first == (if words@.len() > 3 {
                    words@.subrange(0, 3)
                } else {
                    words@
                }),
                words_read(first.subrange(0, i as int)) == Ok::<ListArgs, ArgsErrorView>(
                    state.model(),
                ),
            decreases n - i,
        {
            proof {
                let longer = first.subrange(0, i + 1);
                assert(longer.drop_last() == first.subrange(0, i as int));
                assert(longer.last() == words@[i as int]);
            }
            let word = to_ascii_lowercase(words[i].as_str());
            match read_word(state, word.as_str()) {
                Ok(next) => {
                    state = next;
                },
                Err(e) => {
                    proof {
                        lemma_error_stays(first, i + 1);
                    }
                    return Err(e);
                },
            }
            i = i + 1;
        }
        assert(first.subrange(0, n as int) == first);
        let grade = if state.passes.is_some() {
            None
        } else {
            state.grade
        };
        Ok(
            RecentList {
                mode,
                name: state.name,
                query: None,
                grade,
                sort: None,
                passes: state.passes,
                mods: None,
                unique: None,
                discord: state.discord,
                score_data: None,
            },
        )
    }
}

/// Once a word cannot be read, the words behind it change nothing.
pub proof fn lemma_error_stays(words: Seq<String>, n: int)
    requires
        0 <= n <= words.len(),
        words_read(words.subrange(0, n)) is Err,
    ensures
        words_read(words) == words_read(words.subrange(0, n)),
    decreases words.len() - n,
{
    if n == words.len() {
        assert(words.subrange(0, n) == words);
    } else {
        let longer = words.subrange(0, n + 1);
        assert(longer.drop_last() == words.subrange(0, n));
        lemma_error_stays(words, n + 1);
    }
}

/// Whether failed plays are asked for; nothing where the user wants
/// passes with the grade of a fail.
pub open spec fn include_fails_of(grade: Option<GradeOption>, passes: Option<bool>) -> Option<
    bool,
> {
    match (grade, passes) {
        (Some(GradeOption::F), Some(true)) => None,
        (_, Some(p)) => Some(!p),
        (Some(GradeOption::F), None) => Some(true),
        (None, None) => Some(true),
        _ => Some(false),
    }
}

/// Decides whether failed plays are asked for.
pub fn include_fails(grade: Option<GradeOption>, passes: Option<bool>) -> (fails: Option<bool>)
    ensures
        fails == include_fails_of(grade, passes),
{
    match (grade, passes) {
        (Some(GradeOption::F), Some(true)) => None,
        (_, Some(p)) => Some(!p),
        (Some(GradeOption::F), None) => Some(true),
        (None, None) => Some(true),
        _ => Some(false),
    }
}

/// Whether scores are shown as the stable client counts them: as the user
/// has set it, else as the server has, else not.
pub fn legacy_scores(user: Option<bool>, guild: Option<bool>) -> (legacy: bool)
    ensures
        legacy == match user {
            Some(l) => l,
            None => guild == Some(true),
        },
{
    match user {
        Some(l) => l,
        None => match guild {
            Some(l) => l,
            None => false,
        },
    }
}

/// What is said of a user without recent plays.
pub open spec fn no_plays(mode: GameMode, username: Seq<char>) -> Seq<char> {
    "No recent "@ + mode_word(mode) + "plays found for user `"@ + username + "`"@
}

/// Builds what is said of a user without recent plays.
pub fn no_plays_content(mode: GameMode, username: &str) -> (content: String)
    ensures
        content@ == no_plays(mode, username@),
{
    let mut content = "No recent ".to_owned();
    content.append(mode_word_of(mode));
    content.append("plays found for user `");
    content.append(username);
    content.append("`");
    content
}

/// What is said of mods that cannot be read.
pub fn invalid_mods() -> (content: &'static str)
    ensures
        content@
            == "Failed to parse mods.\nIf you want included mods, specify it e.g. as `+hrdt`.\nIf you want exact mods, specify it e.g. as `+hdhr!`.\nAnd if you want to exclude mods, specify it e.g. as `-hdnf!`."@,
{
    "Failed to parse mods.\nIf you want included mods, specify it e.g. as `+hrdt`.\nIf you want exact mods, specify it e.g. as `+hdhr!`.\nAnd if you want to exclude mods, specify it e.g. as `-hdnf!`."
}

/// How mods are selected, the mods as the text to show.
pub enum ModSelection {
    Exact(String),
    Exclude { mods: String, nomod: bool },
    Include(String),
}

impl ModSelection {
    pub open spec fn text(self) -> Seq<char> {
        match self {
            ModSelection::Exact(mods) => mods@,
            ModSelection::Exclude { mods, nomod } => if nomod {
                "Exclude NM (without "@ + mods@ + ")"@
            } else {
                "Exclude "@ + mods@
            },
            ModSelection::Include(mods) => "Include "@ + mods@,
        }
    }
}

/// `text`, with `part` behind it where there is one; parts are set apart
/// by a tilde.
pub open spec fn with_part(text: Seq<char>, part: Option<Seq<char>>) -> Seq<char> {
    match part {
        Some(p) => if text.len() > 0 {
            text + " ~ "@ + p
        } else {
            p
        },
        None => text,
    }
}

pub open spec fn grade_part(grade: Option<Seq<char>>) -> Option<Seq<char>> {
    match grade {
        Some(g) => Some("`Grade: "@ + g + "`"@),
        None => None,
    }
}

pub open spec fn mods_part(mods: Option<ModSelection>) -> Option<Seq<char>> {
    match mods {
        Some(m) => Some("`Mods: "@ + m.text() + "`"@),
        None => None,
    }
}

pub open spec fn query_part(query: Option<Seq<char>>) -> Option<Seq<char>> {
    match query {
        Some(q) => Some("`Query: "@ + q + "`"@),
        None => None,
    }
}

/// The line above the list that says what the list was narrowed to.
pub open spec fn content_text(
    grade: Option<Seq<char>>,
    mods: Option<ModSelection>,
    query: Option<Seq<char>>,
) -> Seq<char> {
    with_part(with_part(with_part(Seq::empty(), grade_part(grade)), mods_part(mods)), query_part(query))
}

fn push_part(content: &mut String)
    ensures
        final(content)@ == (if old(content)@.len() > 0 {
            old(content)@ + " ~ "@
        } else {
            old(content)@
        }),
{
    if content.as_str().unicode_len() > 0 {
        content.append(" ~ ");
    }
}

/// Builds the line above the list; nothing where the list was not
/// narrowed.
pub fn message_content(grade: Option<&str>, mods: Option<&ModSelection>, query: Option<&str>) -> (content:
    Option<String>)
    ensures
        ({
            let text = content_text(
                match grade {
                    Some(g) => Some(g@),
                    None => None,
                },
                match mods {
                    Some(m) => Some(*m),
                    None => None,
                },
                match query {
                    Some(q) => Some(q@),
                    None => None,
                },
            );
            &&& content.is_some() == (text.len() > 0)
            &&& content.is_some() ==> content.unwrap()@ == text
        }),
{
    let mut content = String::new();
    match grade {
        Some(g) => {
            content.append("`Grade: ");
            content.append(g);
            content.append("`");
            assert(content@ =~= "`Grade: "@ + g@ + "`"@);
        },
        None => {},
    }
    match mods {
        Some(selection) => {
            let ghost before = content@;
            push_part(&mut content);
            let ghost lead = content@;
            content.append("`Mods: ");
            match selection {
                ModSelection::Exact(m) => {
                    content.append(m.as_str());
                },
                ModSelection::Exclude { mods: m, nomod } => {
                    if *nomod {
                        content.append("Exclude NM (without ");
                        content.append(m.as_str());
                        content.append(")");
                    } else {
                        content.append("Exclude ");
                        content.append(m.as_str());
                    }
                },
                ModSelection::Include(m) => {
                    content.append("Include ");
                    content.append(m.as_str());
                },
            }
            content.append("`");
            assert(content@ =~= lead + ("`Mods: "@ + selection.text() + "`"@));
            assert(content@ =~= with_part(before, mods_part(Some(*selection))));
        },
        None => {},
    }
    match query {
        Some(q) => {
            let ghost before = content@;
            push_part(&mut content);
            let ghost lead = content@;
            content.append("`Query: ");
            content.append(q);
            content.append("`");
            assert(content@ =~= lead + ("`Query: "@ + q@ + "`"@));
            assert(content@ =~= with_part(before, query_part(Some(q@))));
        },
        None => {},
    }
    if content.as_str().unicode_len() > 0 {
        Some(content)
    } else {
        None
    }
}

} // verus!
