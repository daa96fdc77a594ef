//! The page of a simulated score.

use crate::embed::{
    field_views, BuildPage, BuildPageView, Embed, EmbedField, EmbedFieldView, EmbedView, Footer,
    FooterView,
};
use crate::mods::GameMode;
use crate::simulate::TopOldVersion;
use crate::simulate_map::SimulateMap;
use crate::text::{decimal, push_decimal};
use vstd::prelude::*;

verus! {

/// What a simulation shows of the score: its points, or its accuracy and
/// hits, or neither where the map was not calculated.
pub enum ScoreState {
    Score(String),
    State { acc: String, hits: String },
    Neither,
}

/// What a simulation shows of the combo: the combo, the ratio, or neither.
pub enum ComboOrRatio {
    Combo(String),
    Ratio(String),
    Neither,
}

/// The calculated values of a simulation, each as the text to show.
pub struct SimulateValues {
    pub grade: String,
    pub pp: String,
    pub clock_rate: Option<String>,
    pub combo_ratio: ComboOrRatio,
    pub score_state: ScoreState,
    pub map_info: String,
    /// The number of keys, for the title of a mania simulation.
    pub keys: String,
}

pub open spec fn named(name: Seq<char>, value: Seq<char>, inline: bool) -> EmbedFieldView {
    EmbedFieldView { name, value, inline }
}

/// `fields`, with `field` behind them where there is one.
pub open spec fn with_opt(fields: Seq<EmbedFieldView>, field: Option<EmbedFieldView>) -> Seq<
    EmbedFieldView,
> {
    match field {
        Some(f) => fields.push(f),
        None => fields,
    }
}

impl SimulateValues {
    /// Whether the map was too suspicious to calculate.
    pub open spec fn too_suspicious(self) -> bool {
        self.score_state is Neither
    }

    pub open spec fn head_field(self) -> EmbedFieldView {
        if self.too_suspicious() {
            named("Map too suspicious"@, "Skipped calculating attributes"@, false)
        } else {
            named("Grade"@, self.grade@, true)
        }
    }

    pub open spec fn acc_field(self) -> Option<EmbedFieldView> {
        match self.score_state {
            ScoreState::State { acc, hits } => Some(named("Acc"@, acc@, true)),
            _ => None,
        }
    }

    pub open spec fn score_field(self) -> Option<EmbedFieldView> {
        match self.score_state {
            ScoreState::Score(score) => Some(named("Score"@, score@, true)),
            _ => None,
        }
    }

    pub open spec fn ratio_field(self) -> Option<EmbedFieldView> {
        match self.combo_ratio {
            ComboOrRatio::Ratio(ratio) => Some(named("Ratio"@, ratio@, true)),
            _ => None,
        }
    }

    pub open spec fn combo_field(self) -> Option<EmbedFieldView> {
        match self.combo_ratio {
            ComboOrRatio::Combo(combo) => Some(named("Combo"@, combo@, true)),
            _ => None,
        }
    }

    pub open spec fn pp_field(self) -> Option<EmbedFieldView> {
        if self.too_suspicious() {
            None
        } else {
            Some(named("PP"@, self.pp@, true))
        }
    }

    pub open spec fn clock_field(self) -> Option<EmbedFieldView> {
        match self.clock_rate {
            Some(rate) => Some(named("Clock rate"@, rate@, true)),
            None => None,
        }
    }

    pub open spec fn hits_field(self) -> Option<EmbedFieldView> {
        match self.score_state {
            ScoreState::State { acc, hits } => Some(named("Hits"@, hits@, true)),
            _ => None,
        }
    }

    /// The fields of the page, in the order in which they are shown.
    pub open spec fn fields(self) -> Seq<EmbedFieldView> {
        let head = seq![self.head_field()];
        let acc = with_opt(head, self.acc_field());
        let score = with_opt(acc, self.score_field());
        let ratio = with_opt(score, self.ratio_field());
        let combo = with_opt(ratio, self.combo_field());
        let pp = with_opt(combo, self.pp_field());
        let clock = with_opt(pp, self.clock_field());
        let hits = with_opt(clock, self.hits_field());
        hits.push(named("Map Info"@, self.map_info@, false))
    }
}

/// The title of the page: the map, and for mania the number of keys.
pub open spec fn simulate_title(map: SimulateMap, mode: GameMode, keys: Seq<char>) -> Seq<char> {
    let base = match map {
        SimulateMap::Full(m) => m.artist@ + " - "@ + m.title@ + " ["@ + m.version@ + "]"@,
        SimulateMap::Attached(m) => m.filename@,
    };
    if mode == GameMode::Mania {
        base + " "@ + keys
    } else {
        base
    }
}

/// The line under the page: the version, after whose map it is where that
/// is known.
pub open spec fn simulate_footer(map: SimulateMap, version: Seq<char>) -> FooterView {
    match map {
        SimulateMap::Full(m) => FooterView {
            text: m.status@ + " mapset of "@ + m.creator@ + " • "@ + version,
            icon_url: Some(m.mode_icon@),
        },
        SimulateMap::Attached(m) => FooterView { text: version, icon_url: None },
    }
}

/// The address of a map's page.
pub open spec fn map_url(map_id: u32) -> Seq<char> {
    "https://osu.ppy.sh/b/"@ + decimal(map_id as nat)
}

/// The page of a simulation.
pub open spec fn simulation_page(
    map: SimulateMap,
    version: TopOldVersion,
    defer: bool,
    values: SimulateValues,
) -> BuildPageView {
    BuildPageView {
        embed: EmbedView {
            author: None,
            title: Some(simulate_title(map, version.mode, values.keys@)),
            description: None,
            url: match map {
                SimulateMap::Full(m) => Some(map_url(m.map_id)),
                SimulateMap::Attached(m) => None,
            },
            image: match map {
                SimulateMap::Full(m) => Some(m.cover@),
                SimulateMap::Attached(m) => None,
            },
            thumbnail: None,
            footer: Some(simulate_footer(map, version.name@)),
            fields: values.fields(),
        },
        defer,
        content: Some("Simulated score:"@),
    }
}

fn push_field(fields: &mut Vec<EmbedField>, name: &str, value: &str, inline: bool)
    ensures
        field_views(final(fields)@) == field_views(old(fields)@).push(named(name@, value@, inline)),
{
    fields.push(EmbedField { name: name.to_owned(), value: value.to_owned(), inline });
    assert(field_views(fields@) =~= field_views(old(fields)@).push(named(name@, value@, inline)));
}

/// Builds the fields of the page.
pub fn build_fields(values: &SimulateValues) -> (fields: Vec<EmbedField>)
    ensures
        field_views(fields@) == values.fields(),
{
    let mut fields: Vec<EmbedField> = Vec::new();
    assert(field_views(fields@) =~= Seq::empty());
    let suspicious = match &values.score_state {
        ScoreState::Neither => true,
        _ => false,
    };
    if suspicious {
        push_field(&mut fields, "Map too suspicious", "Skipped calculating attributes", false);
    } else {
        push_field(&mut fields, "Grade", values.grade.as_str(), true);
    }
    assert(field_views(fields@) =~= seq![values.head_field()]);
    match &values.score_state {
        ScoreState::State { acc, hits } => push_field(&mut fields, "Acc", acc.as_str(), true),
        _ => {},
    }
    match &values.score_state {
        ScoreState::Score(score) => push_field(&mut fields, "Score", score.as_str(), true),
        _ => {},
    }
    match &values.combo_ratio {
        ComboOrRatio::Ratio(ratio) => push_field(&mut fields, "Ratio", ratio.as_str(), true),
        _ => {},
    }
    match &values.combo_ratio {
        ComboOrRatio::Combo(combo) => push_field(&mut fields, "Combo", combo.as_str(), true),
        _ => {},
    }
    if !suspicious {
        push_field(&mut fields, "PP", values.pp.as_str(), true);
    }
    match &values.clock_rate {
        Some(rate) => push_field(&mut fields, "Clock rate", rate.as_str(), true),
        None => {},
    }
    match &values.score_state {
        ScoreState::State { acc, hits } => push_field(&mut fields, "Hits", hits.as_str(), true),
        _ => {},
    }
    push_field(&mut fields, "Map Info", values.map_info.as_str(), false);
    fields
}

/// Builds the title of the page.
pub fn build_title(map: &SimulateMap, mode: GameMode, keys: &str) -> (title: String)
    ensures
        title@ == simulate_title(*map, mode, keys@),
{
    let mut title = match map {
        SimulateMap::Full(m) => {
            let mut title = m.artist.clone();
            title.append(" - ");
            title.append(m.title.as_str());
            title.append(" [");
            title.append(m.version.as_str());
            title.append("]");
            title
        },
        SimulateMap::Attached(m) => m.filename.clone(),
    };
    match mode {
        GameMode::Mania => {
            title.append(" ");
            title.append(keys);
        },
        _ => {},
    }
    title
}

/// Builds the line under the page.
pub fn build_footer(map: &SimulateMap, version: &str) -> (footer: Footer)
    ensures
        footer@ == simulate_footer(*map, version@),
{
    match map {
        SimulateMap::Full(m) => {
            let mut text = m.status.clone();
            text.append(" mapset of ");
            text.append(m.creator.as_str());
            text.append(" • ");
            text.append(version);
            Footer { text, icon_url: Some(m.mode_icon.clone()) }
        },
        SimulateMap::Attached(m) => Footer { text: version.to_owned(), icon_url: None },
    }
}

/// Builds the address of a map's page.
pub fn build_map_url(map_id: u32) -> (url: String)
    ensures
        url@ == map_url(map_id),
{
    let mut url = "https://osu.ppy.sh/b/".to_owned();
    push_decimal(&mut url, map_id as u64);
    url
}

/// Builds the page of a simulation.
pub fn render_simulation(
    map: &SimulateMap,
    version: &TopOldVersion,
    defer: bool,
    values: &SimulateValues,
) -> (page: BuildPage)
    ensures
        page@ == simulation_page(*map, *version, defer, *values),
{
    let fields = build_fields(values);
    let title = build_title(map, version.mode, values.keys.as_str());
    let footer = build_footer(map, version.name.as_str());
    let (image, url) = match map {
        SimulateMap::Full(m) => (Some(m.cover.clone()), Some(build_map_url(m.map_id))),
        SimulateMap::Attached(m) => (None, None),
    };
    BuildPage {
        embed: Embed {
            author: None,
            title: Some(title),
            description: None,
            url,
            image,
            thumbnail: None,
            footer: Some(footer),
            fields,
        },
        defer,
        content: Some("Simulated score:".to_owned()),
    }
}

} // verus!
