//! The state of a score simulation and what it holds of the user's inputs.

use crate::embed::{copy_rows, row_views, ControlRow};
use crate::interaction::{DoubleBits, SingleBits};
use crate::mods::GameMode;
use crate::text::text_eq;
use rosu_v2::model::mods::GameMods;
use vstd::prelude::*;

verus! {

/// The four difficulty settings that a user may override.
#[derive(Clone, Copy, Debug, PartialEq, Eq)]
pub struct SimulateAttributes {
    pub ar: Option<SingleBits>,
    pub cs: Option<SingleBits>,
    pub hp: Option<SingleBits>,
    pub od: Option<SingleBits>,
}

/// One version of the scoring rules that a simulation can follow, with the
/// controls that it offers.
pub struct TopOldVersion {
    pub mode: GameMode,
    /// The name that a page shows.
    pub name: String,
    /// The value by which a menu names the version.
    pub menu_value: String,
    /// The controls for a score set on the stable client.
    pub stable: Vec<ControlRow>,
    /// The controls for a score set on the lazer client.
    pub lazer: Vec<ControlRow>,
}

/// Whether `versions[i]` is the first version that a menu names `value`.
pub open spec fn is_version_at(versions: Seq<TopOldVersion>, value: Seq<char>, i: int) -> bool {
    &&& 0 <= i < versions.len()
    &&& versions[i].menu_value@ == value
    &&& forall|j: int| 0 <= j < i ==> (#[trigger] versions[j]).menu_value@ != value
}

/// The place of the first version that a menu names `value`.
pub open spec fn find_version(versions: Seq<TopOldVersion>, value: Seq<char>) -> Option<usize> {
    if exists|i: usize| is_version_at(versions, value, i as int) {
        Some(choose|i: usize| is_version_at(versions, value, i as int))
    } else {
        None
    }
}

impl TopOldVersion {
    /// The rows of controls for the given client.
    pub open spec fn rows(self, set_on_lazer: bool) -> Seq<ControlRow> {
        if set_on_lazer {
            self.lazer@
        } else {
            self.stable@
        }
    }

    /// The controls that the version offers.
    pub fn components(&self, set_on_lazer: bool) -> (rows: Vec<ControlRow>)
        ensures
            row_views(rows@) == row_views(self.rows(set_on_lazer)),
    {
        if set_on_lazer {
            copy_rows(&self.lazer)
        } else {
            copy_rows(&self.stable)
        }
    }

    /// Finds the version that a menu names `value`.
    pub fn from_menu_str(versions: &Vec<TopOldVersion>, value: &str) -> (found: Option<usize>)
        ensures
            found == find_version(versions@, value@),
    {
        let mut i: usize = 0;
        while i < versions.len()
            invariant
                i <= versions.len(),
                forall|j: int| 0 <= j < i ==> (#[trigger] versions@[j]).menu_value@ != value@,
            decreases versions.len() - i,
        {
            if text_eq(versions[i].menu_value.as_str(), value) {
                assert(is_version_at(versions@, value@, i as int));
                proof {
                    let k = choose|k: usize| is_version_at(versions@, value@, k as int);
                    assert(k == i);
                }
                return Some(i);
            }
            i = i + 1;
        }
        assert forall|k: usize| !is_version_at(versions@, value@, k as int) by {}
        None
    }
}

/// The counts that a user may set, each by a form of its own.
#[derive(Clone, Copy, Debug, PartialEq, Eq, Structural)]
pub enum CountField {
    Combo,
    Geki,
    Katu,
    N300,
    N100,
    N50,
    Miss,
    Score,
    SliderEnds,
    LargeTicks,
}

/// The count that the form named `id` sets.
pub open spec fn count_field(id: Seq<char>) -> Option<CountField> {
    if id == "sim_combo"@ {
        Some(CountField::Combo)
    } else if id == "sim_geki"@ {
        Some(CountField::Geki)
    } else if id == "sim_katu"@ {
        Some(CountField::Katu)
    } else if id == "sim_n300"@ {
        Some(CountField::N300)
    } else if id == "sim_n100"@ {
        Some(CountField::N100)
    } else if id == "sim_n50"@ {
        Some(CountField::N50)
    } else if id == "sim_miss"@ {
        Some(CountField::Miss)
    } else if id == "sim_score"@ {
        Some(CountField::Score)
    } else if id == "sim_slider_ends"@ {
        Some(CountField::SliderEnds)
    } else if id == "sim_large_ticks"@ {
        Some(CountField::LargeTicks)
    } else {
        None
    }
}

/// Finds the count that the form named `id` sets.
pub fn count_field_of(id: &str) -> (field: Option<CountField>)
    ensures
        field == count_field(id@),
{
    if text_eq(id, "sim_combo") {
        Some(CountField::Combo)
    } else if text_eq(id, "sim_geki") {
        Some(CountField::Geki)
    } else if text_eq(id, "sim_katu") {
        Some(CountField::Katu)
    } else if text_eq(id, "sim_n300") {
        Some(CountField::N300)
    } else if text_eq(id, "sim_n100") {
        Some(CountField::N100)
    } else if text_eq(id, "sim_n50") {
        Some(CountField::N50)
    } else if text_eq(id, "sim_miss") {
        Some(CountField::Miss)
    } else if text_eq(id, "sim_score") {
        Some(CountField::Score)
    } else if text_eq(id, "sim_slider_ends") {
        Some(CountField::SliderEnds)
    } else if text_eq(id, "sim_large_ticks") {
        Some(CountField::LargeTicks)
    } else {
        None
    }
}

/// What the user has set for a simulation. A field that holds nothing is
/// left to the calculator.
pub struct SimulateData {
    pub mods: Option<GameMods>,
    /// The accuracy in percent, between 0 and 100.
    pub acc: Option<SingleBits>,
    pub combo: Option<u32>,
    pub n_geki: Option<u32>,
    pub n_katu: Option<u32>,
    pub n300: Option<u32>,
    pub n100: Option<u32>,
    pub n50: Option<u32>,
    pub n_miss: Option<u32>,
    pub score: Option<u32>,
    pub n_slider_ends: Option<u32>,
    pub n_large_ticks: Option<u32>,
    pub set_on_lazer: bool,
    pub attrs: SimulateAttributes,
    pub clock_rate: Option<DoubleBits>,
    pub bpm: Option<SingleBits>,
    /// The versions that the user may choose from.
    pub versions: Vec<TopOldVersion>,
    /// The place of the chosen version in `versions`.
    pub version: usize,
}

impl SimulateData {
    /// The data with one count set or cleared.
    pub open spec fn with_count(self, field: CountField, value: Option<u32>) -> SimulateData {
        match field {
            CountField::Combo => SimulateData { combo: value, ..self },
            CountField::Geki => SimulateData { n_geki: value, ..self },
            CountField::Katu => SimulateData { n_katu: value, ..self },
            CountField::N300 => SimulateData { n300: value, ..self },
            CountField::N100 => SimulateData { n100: value, ..self },
            CountField::N50 => SimulateData { n50: value, ..self },
            CountField::Miss => SimulateData { n_miss: value, ..self },
            CountField::Score => SimulateData { score: value, ..self },
            CountField::SliderEnds => SimulateData { n_slider_ends: value, ..self },
            CountField::LargeTicks => SimulateData { n_large_ticks: value, ..self },
        }
    }

    /// What is stored for a count.
    pub open spec fn count(self, field: CountField) -> Option<u32> {
        match field {
            CountField::Combo => self.combo,
            CountField::Geki => self.n_geki,
            CountField::Katu => self.n_katu,
            CountField::N300 => self.n300,
            CountField::N100 => self.n100,
            CountField::N50 => self.n50,
            CountField::Miss => self.n_miss,
            CountField::Score => self.score,
            CountField::SliderEnds => self.n_slider_ends,
            CountField::LargeTicks => self.n_large_ticks,
        }
    }

    /// The chosen version, where `version` names one.
    pub open spec fn chosen(self) -> Option<TopOldVersion> {
        if self.version < self.versions@.len() {
            Some(self.versions@[self.version as int])
        } else {
            None
        }
    }

    /// Sets or clears one count.
    pub fn set_count(&mut self, field: CountField, value: Option<u32>)
        ensures
            *final(self) == old(self).with_count(field, value),
    {
        match field {
            CountField::Combo => self.combo = value,
            CountField::Geki => self.n_geki = value,
            CountField::Katu => self.n_katu = value,
            CountField::N300 => self.n300 = value,
            CountField::N100 => self.n100 = value,
            CountField::N50 => self.n50 = value,
            CountField::Miss => self.n_miss = value,
            CountField::Score => self.score = value,
            CountField::SliderEnds => self.n_slider_ends = value,
            CountField::LargeTicks => self.n_large_ticks = value,
        }
    }

    /// What is stored for a count.
    pub fn get_count(&self, field: CountField) -> (value: Option<u32>)
        ensures
            value == self.count(field),
    {
        match field {
            CountField::Combo => self.combo,
            CountField::Geki => self.n_geki,
            CountField::Katu => self.n_katu,
            CountField::N300 => self.n300,
            CountField::N100 => self.n100,
            CountField::N50 => self.n50,
            CountField::Miss => self.n_miss,
            CountField::Score => self.score,
            CountField::SliderEnds => self.n_slider_ends,
            CountField::LargeTicks => self.n_large_ticks,
        }
    }

    /// The chosen version, where `version` names one.
    pub fn chosen_version(&self) -> (version: Option<&TopOldVersion>)
        ensures
            version.is_some() == self.chosen().is_some(),
            version.is_some() ==> *version.unwrap() == self.chosen().unwrap(),
    {
        if self.version < self.versions.len() {
            Some(&self.versions[self.version])
        } else {
            None
        }
    }
}

/// An accuracy clamped into 0 to 100 percent, on the bit pattern of a
/// single-precision number: what is no number stays as it is, a negative
/// number becomes zero (minus zero stays), one above a hundred becomes a
/// hundred.
pub open spec fn clamped_percent(bits: SingleBits) -> SingleBits {
    let magnitude = if bits >= 0x8000_0000 {
        bits - 0x8000_0000
    } else {
        bits as int
    };
    if magnitude > 0x7f80_0000 {
        bits
    } else if bits >= 0x8000_0000 {
        if magnitude == 0 {
            bits
        } else {
            0
        }
    } else if bits > 0x42c8_0000 {
        0x42c8_0000
    } else {
        bits
    }
}

/// Clamps an accuracy into 0 to 100 percent.
pub fn clamp_percent(bits: SingleBits) -> (clamped: SingleBits)
    ensures
        clamped == clamped_percent(bits),
{
    let negative = bits >= 0x8000_0000;
    let magnitude: u32 = if negative {
        bits - 0x8000_0000
    } else {
        bits
    };
    if magnitude > 0x7f80_0000 {
        bits
    } else if negative {
        if magnitude == 0 {
            bits
        } else {
            0
        }
    } else if bits > 0x42c8_0000 {
        0x42c8_0000
    } else {
        bits
    }
}

} // verus!
