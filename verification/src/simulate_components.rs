//! A message that shows a simulated score and takes the user's inputs for it.

use crate::active::{
    ComponentError, ComponentErrorView, ComponentResult, ComponentResultView, ModalError,
    ModalOutcome,
};
use crate::embed::{row_views, BuildPage, BuildPageView, ControlRow, ControlRowView, RenderError};
use crate::interaction::{
    ComponentEvent, Decimal, DoubleBits, FieldInput, ModalEvent, ModalField, SingleBits,
};
use crate::mods::{
    is_valid, mods_valid, mods_with_mode, read_acronyms, try_with_mode,
};
use crate::simulate::{
    clamp_percent, clamped_percent, count_field, count_field_of, find_version, CountField,
    SimulateAttributes, SimulateData, TopOldVersion,
};
use crate::simulate_forms::{simulate_form, simulate_modal};
use crate::simulate_map::{beatmap_mode, SimulateMap};
use crate::simulate_page::{render_simulation, simulation_page, SimulateValues};
use crate::text::{drop_trailing, skip_leading, text_eq, trim_ends};
use rosu_v2::model::mods::GameModsIntermode;
use vstd::prelude::*;

verus! {

/// The single-precision reading of a decimal input.
pub open spec fn single_input(input: FieldInput<Decimal>) -> FieldInput<SingleBits> {
    match input {
        FieldInput::Absent => FieldInput::Absent,
        FieldInput::Valid(d) => FieldInput::Valid(d.single),
        FieldInput::Invalid => FieldInput::Invalid,
    }
}

/// The double-precision reading of a decimal input.
pub open spec fn double_input(input: FieldInput<Decimal>) -> FieldInput<DoubleBits> {
    match input {
        FieldInput::Absent => FieldInput::Absent,
        FieldInput::Valid(d) => FieldInput::Valid(d.double),
        FieldInput::Invalid => FieldInput::Invalid,
    }
}

/// Whether `id` names one of the menus that choose a version.
pub open spec fn is_version_menu(id: Seq<char>) -> bool {
    ||| id == "sim_osu_version"@
    ||| id == "sim_taiko_version"@
    ||| id == "sim_catch_version"@
    ||| id == "sim_mania_version"@
}

/// The text of a mods input without the plus signs before it and the
/// exclamation marks after it.
pub open spec fn mods_acronyms(text: Seq<char>) -> Seq<char> {
    drop_trailing(skip_leading(text, '+'), '!')
}

/// The mathematical model of [`SimulateComponents`].
pub struct SimulateState {
    pub map: SimulateMap,
    pub data: SimulateData,
    /// Whether the next page must be sent after an acknowledgment.
    pub defer: bool,
    pub msg_owner: u64,
}

impl SimulateState {
    pub open spec fn with_data(self, data: SimulateData) -> SimulateState {
        SimulateState { data, ..self }
    }

    /// The answer to a choice in a version menu.
    pub open spec fn on_version_menu(self, event: ComponentEvent) -> ComponentResultView {
        if event.values@.len() == 0 {
            ComponentResultView::Error(ComponentErrorView::MissingVersion)
        } else {
            match find_version(self.data.versions@, event.values@[0]@) {
                Some(i) => ComponentResultView::Defer(i),
                None => ComponentResultView::Error(
                    ComponentErrorView::UnknownVersion(event.values@[0]@),
                ),
            }
        }
    }

    /// The state after a click, and the answer to it.
    pub open spec fn on_component(self, event: ComponentEvent) -> (
        SimulateState,
        ComponentResultView,
    ) {
        let id = event.custom_id@;
        match event.user {
            None => (self, ComponentResultView::Error(ComponentErrorView::MissingUser)),
            Some(user) => if user != self.msg_owner {
                (self, ComponentResultView::Ignore)
            } else if simulate_form(id) is Some {
                (self, ComponentResultView::CreateModal(simulate_form(id).unwrap()))
            } else if id == "sim_lazer"@ {
                (
                    SimulateState {
                        data: SimulateData { set_on_lazer: true, ..self.data },
                        defer: false,
                        ..self
                    },
                    ComponentResultView::BuildPage,
                )
            } else if id == "sim_stable"@ {
                (
                    SimulateState {
                        data: SimulateData {
                            set_on_lazer: false,
                            n_slider_ends: None,
                            n_large_ticks: None,
                            ..self.data
                        },
                        defer: false,
                        ..self
                    },
                    ComponentResultView::BuildPage,
                )
            } else if is_version_menu(id) {
                (self, self.on_version_menu(event))
            } else {
                (self, ComponentResultView::Ignore)
            },
        }
    }

    /// The state after the acknowledgment that a version menu asked for,
    /// and the answer to the click.
    pub open spec fn after_defer(self, version: usize, acknowledged: bool) -> (
        SimulateState,
        ComponentResultView,
    ) {
        if !acknowledged {
            (self, ComponentResultView::Error(ComponentErrorView::DeferFailed))
        } else if version >= self.data.versions@.len() {
            (self, ComponentResultView::Ignore)
        } else {
            (
                self.with_data(SimulateData { version, ..self.data }),
                ComponentResultView::BuildPage,
            )
        }
    }

    /// Whether the form is the owner's and sets mods from a text.
    pub open spec fn reads_mods(self, event: ModalEvent) -> bool {
        &&& event.user == Some(self.msg_owner)
        &&& event.first_field() is Some
        &&& event.custom_id@ == "sim_mods"@
        &&& event.first_field().unwrap().text() is Some
    }

    /// The state after a mods input. `parsed` is what the text spells.
    pub open spec fn on_mods(self, text: Option<Seq<char>>, parsed: Option<GameModsIntermode>) -> (
        SimulateState,
        Result<ModalOutcome, ModalError>,
    ) {
        match text {
            None => (
                self.with_data(SimulateData { mods: None, ..self.data }),
                Ok(ModalOutcome::Acknowledge),
            ),
            Some(_) => match parsed {
                None => (self, Ok(ModalOutcome::Rejected)),
                Some(spelled) => match mods_with_mode(spelled, beatmap_mode(self.map.beatmap())) {
                    Some(mods) => if mods_valid(mods) {
                        (
                            self.with_data(SimulateData { mods: Some(mods), ..self.data }),
                            Ok(ModalOutcome::Acknowledge),
                        )
                    } else {
                        (self, Ok(ModalOutcome::Rejected))
                    },
                    None => (self, Ok(ModalOutcome::Rejected)),
                },
            },
        }
    }

    /// The state after the form that sets the accuracy.
    pub open spec fn on_acc(self, input: FieldInput<Decimal>) -> (
        SimulateState,
        Result<ModalOutcome, ModalError>,
    ) {
        match input {
            FieldInput::Absent => (
                self.with_data(SimulateData { acc: None, ..self.data }),
                Ok(ModalOutcome::Acknowledge),
            ),
            FieldInput::Valid(d) => (
                self.with_data(
                    SimulateData { acc: Some(clamped_percent(d.single)), ..self.data },
                ),
                Ok(ModalOutcome::Acknowledge),
            ),
            FieldInput::Invalid => (self, Ok(ModalOutcome::Rejected)),
        }
    }

    /// The state after the form that sets a count.
    pub open spec fn on_count(self, count: CountField, input: FieldInput<u32>) -> (
        SimulateState,
        Result<ModalOutcome, ModalError>,
    ) {
        match input {
            FieldInput::Invalid => (self, Ok(ModalOutcome::Rejected)),
            _ => (
                self.with_data(self.data.with_count(count, input.value())),
                Ok(ModalOutcome::Acknowledge),
            ),
        }
    }

    /// The data after the form that sets the four difficulty settings.
    pub open spec fn with_attrs(self, event: ModalEvent) -> SimulateData {
        SimulateData {
            attrs: SimulateAttributes {
                ar: single_input(event.attr("sim_ar"@)).apply(self.data.attrs.ar),
                cs: single_input(event.attr("sim_cs"@)).apply(self.data.attrs.cs),
                hp: single_input(event.attr("sim_hp"@)).apply(self.data.attrs.hp),
                od: single_input(event.attr("sim_od"@)).apply(self.data.attrs.od),
            },
            ..self.data
        }
    }

    /// The data after the form that sets the clock rate and the beats per
    /// minute.
    pub open spec fn with_speed(self, event: ModalEvent) -> SimulateData {
        SimulateData {
            clock_rate: double_input(event.attr("sim_clock_rate"@)).apply(self.data.clock_rate),
            bpm: single_input(event.attr("sim_bpm"@)).apply(self.data.bpm),
            ..self.data
        }
    }

    /// The state after the owner's form, whose first input is `field`.
    pub open spec fn on_input(
        self,
        event: ModalEvent,
        field: ModalField,
        parsed: Option<GameModsIntermode>,
    ) -> (SimulateState, Result<ModalOutcome, ModalError>) {
        let id = event.custom_id@;
        if id == "sim_mods"@ {
            self.on_mods(field.text(), parsed)
        } else if id == "sim_acc"@ {
            self.on_acc(field.decimal())
        } else if count_field(id) is Some {
            self.on_count(count_field(id).unwrap(), field.count())
        } else if id == "sim_attrs"@ {
            (self.with_data(self.with_attrs(event)), Ok(ModalOutcome::Acknowledge))
        } else if id == "sim_speed_adjustments"@ {
            (self.with_data(self.with_speed(event)), Ok(ModalOutcome::Acknowledge))
        } else {
            (self, Ok(ModalOutcome::Acknowledge))
        }
    }

    /// The state after a submitted form, and what became of the form.
    /// `parsed` is what the text of a mods input spells.
    pub open spec fn on_modal(self, event: ModalEvent, parsed: Option<GameModsIntermode>) -> (
        SimulateState,
        Result<ModalOutcome, ModalError>,
    ) {
        match event.user {
            None => (self, Err(ModalError::MissingUser)),
            Some(user) => if user != self.msg_owner {
                (self, Ok(ModalOutcome::NotOwner))
            } else {
                match event.first_field() {
                    None => (self, Err(ModalError::MissingInput)),
                    Some(field) => self.on_input(event, field, parsed),
                }
            },
        }
    }

    /// The page that shows `values`; none where no version is chosen.
    pub open spec fn page(self, values: SimulateValues) -> Option<BuildPageView> {
        match self.data.chosen() {
            Some(version) => Some(simulation_page(self.map, version, self.defer, values)),
            None => None,
        }
    }

    /// The state after a page was built: the next page goes out after an
    /// acknowledgment again.
    pub open spec fn after_page(self) -> SimulateState {
        if self.data.chosen() is Some {
            SimulateState { defer: true, ..self }
        } else {
            self
        }
    }

    /// The controls under the message.
    pub open spec fn controls(self) -> Seq<ControlRowView> {
        match self.data.chosen() {
            Some(version) => row_views(version.rows(self.data.set_on_lazer)),
            None => Seq::empty(),
        }
    }
}

pub struct SimulateComponents {
    map: SimulateMap,
    data: SimulateData,
    defer: bool,
    msg_owner: u64,
}

impl View for SimulateComponents {
    type V = SimulateState;

    closed spec fn view(&self) -> SimulateState {
        SimulateState {
            map: self.map,
            data: self.data,
            defer: self.defer,
            msg_owner: self.msg_owner,
        }
    }
}

impl SimulateComponents {
    /// A message that has not been sent yet: its first page goes out after
    /// an acknowledgment.
    pub fn new(map: SimulateMap, data: SimulateData, msg_owner: u64) -> (message: Self)
        ensures
            message@ == (SimulateState { map, data, defer: true, msg_owner }),
    {
        Self { map, data, msg_owner, defer: true }
    }

    pub fn map(&self) -> (map: &SimulateMap)
        ensures
            *map == self@.map,
    {
        &self.map
    }

    pub fn map_mut(&mut self) -> (map: &mut SimulateMap)
        ensures
            *map == old(self)@.map,
            final(self)@ == (SimulateState { map: *final(map), ..old(self)@ }),
    {
        &mut self.map
    }

    pub fn data(&self) -> (data: &SimulateData)
        ensures
            *data == self@.data,
    {
        &self.data
    }

    pub fn msg_owner(&self) -> (owner: u64)
        ensures
            owner == self@.msg_owner,
    {
        self.msg_owner
    }

    pub fn defer(&self) -> (defer: bool)
        ensures
            defer == self@.defer,
    {
        self.defer
    }

    /// The controls that the chosen version offers for the chosen client;
    /// none where no version is chosen.
    pub fn build_components(&self) -> (rows: Vec<ControlRow>)
        ensures
            row_views(rows@) == self@.controls(),
    {
        match self.data.chosen_version() {
            Some(version) => version.components(self.data.set_on_lazer),
            None => {
                let rows: Vec<ControlRow> = Vec::new();
                assert(row_views(rows@) =~= Seq::empty());
                rows
            },
        }
    }

    /// Builds the page that shows `values`. The page says whether it is to
    /// be sent after an acknowledgment, as the state had it; from then on
    /// the state asks for one again. Where no version is chosen there is no
    /// page, and the state stays as it is.
    pub fn build_page(&mut self, values: &SimulateValues) -> (result: Result<BuildPage, RenderError>)
        ensures
            result.is_ok() == old(self)@.page(*values).is_some(),
            result.is_ok() ==> result.unwrap()@ == old(self)@.page(*values).unwrap(),
            result.is_err() ==> result.unwrap_err() == RenderError::UnknownVersion,
            final(self)@ == old(self)@.after_page(),
    {
        let page = match self.data.chosen_version() {
            Some(version) => render_simulation(&self.map, version, self.defer, values),
            None => {
                return Err(RenderError::UnknownVersion);
            },
        };
        self.defer = true;
        Ok(page)
    }

    /// Answers a click. Only the owner's clicks change anything: a click on
    /// an input control opens its form, the two client controls switch the
    /// client and have the page rebuilt, a version menu asks for an
    /// acknowledgment first (see [`Self::complete_defer`]).
    pub fn handle_component(&mut self, component: &ComponentEvent) -> (result: ComponentResult)
        ensures
            (final(self)@, result@) == old(self)@.on_component(*component),
    {
        let user = match component.user {
            Some(user) => user,
            None => {
                return ComponentResult::Error(ComponentError::MissingUser);
            },
        };
        if user != self.msg_owner {
            return ComponentResult::Ignore;
        }
        let id = component.custom_id.as_str();
        match simulate_modal(id) {
            Some(form) => {
                return ComponentResult::CreateModal(form);
            },
            None => {},
        }
        if text_eq(id, "sim_lazer") {
            self.data.set_on_lazer = true;
            self.defer = false;
            ComponentResult::BuildPage
        } else if text_eq(id, "sim_stable") {
            self.data.set_on_lazer = false;
            self.data.n_slider_ends = None;
            self.data.n_large_ticks = None;
            self.defer = false;
            ComponentResult::BuildPage
        } else if text_eq(id, "sim_osu_version") || text_eq(id, "sim_taiko_version") || text_eq(
            id,
            "sim_catch_version",
        ) || text_eq(id, "sim_mania_version") {
            self.handle_topold_menu(component)
        } else {
            ComponentResult::Ignore
        }
    }

    /// Answers a choice in a version menu: the place of the chosen version,
    /// to be handed back once the callback is acknowledged.
    pub fn handle_topold_menu(&self, component: &ComponentEvent) -> (result: ComponentResult)
        ensures
            result@ == self@.on_version_menu(*component),
    {
        if component.values.len() == 0 {
            return ComponentResult::Error(ComponentError::MissingVersion);
        }
        let value = &component.values[0];
        match TopOldVersion::from_menu_str(&self.data.versions, value.as_str()) {
            Some(i) => ComponentResult::Defer(i),
            None => ComponentResult::Error(ComponentError::UnknownVersion(value.clone())),
        }
    }

    /// Takes in how the acknowledgment went that a version menu asked for:
    /// where it went through, the version is chosen and the page is to be
    /// rebuilt; where it did not, nothing changes.
    pub fn complete_defer(&mut self, version: usize, acknowledged: bool) -> (result:
        ComponentResult)
        ensures
            (final(self)@, result@) == old(self)@.after_defer(version, acknowledged),
    {
        if !acknowledged {
            ComponentResult::Error(ComponentError::DeferFailed)
        } else if version >= self.data.versions.len() {
            ComponentResult::Ignore
        } else {
            self.data.version = version;
            ComponentResult::BuildPage
        }
    }

    /// The text that a mods form hands to the reader of acronyms, where the
    /// form is the owner's and holds any.
    pub fn mods_text<'a>(&self, modal: &'a ModalEvent) -> (text: Option<&'a str>)
        ensures
            text.is_some() == self@.reads_mods(*modal),
            text.is_some() ==> text.unwrap()@ == mods_acronyms(
                modal.first_field().unwrap().text().unwrap(),
            ),
    {
        match modal.user {
            Some(user) => {
                if user != self.msg_owner {
                    return None;
                }
            },
            None => {
                return None;
            },
        }
        if !text_eq(modal.custom_id.as_str(), "sim_mods") {
            return None;
        }
        match modal.first_input() {
            Some(field) => match field.read_text() {
                Some(text) => Some(trim_ends(text.as_str(), '+', '!')),
                None => None,
            },
            None => None,
        }
    }

    /// Takes in a submitted form. An input that holds nothing clears what
    /// it stands for, one that holds a value sets it, one that holds
    /// anything else leaves it as it was. What the text of a mods input
    /// spells is for the mods crate to say; the state follows from that as
    /// [`Self::apply_modal`] states.
    pub fn handle_modal(&mut self, modal: &ModalEvent) -> (result: Result<ModalOutcome, ModalError>)
        ensures
            exists|parsed: Option<GameModsIntermode>|
                (final(self)@, result) == #[trigger] old(self)@.on_modal(*modal, parsed),
    {
        let parsed = match self.mods_text(modal) {
            Some(text) => Some(read_acronyms(text)),
            None => None,
        };
        self.apply_modal(modal, &parsed)
    }

    /// Takes in a submitted form, with what the text of its mods input
    /// spells.
    pub fn apply_modal(&mut self, modal: &ModalEvent, parsed: &Option<GameModsIntermode>) -> (result:
        Result<ModalOutcome, ModalError>)
        ensures
            (final(self)@, result) == old(self)@.on_modal(*modal, *parsed),
    {
        let user = match modal.user {
            Some(user) => user,
            None => {
                return Err(ModalError::MissingUser);
            },
        };
        if user != self.msg_owner {
            return Ok(ModalOutcome::NotOwner);
        }
        let field = match modal.first_input() {
            Some(field) => field,
            None => {
                return Err(ModalError::MissingInput);
            },
        };
        let id = modal.custom_id.as_str();
        if text_eq(id, "sim_mods") {
            return Ok(self.apply_mods(field.read_text().is_some(), parsed));
        }
        if text_eq(id, "sim_acc") {
            return self.apply_acc(field.read_decimal());
        }
        match count_field_of(id) {
            Some(count) => {
                return self.apply_count(count, field.read_count());
            },
            None => {},
        }
        if text_eq(id, "sim_attrs") {
            self.apply_attrs(modal);
        } else if text_eq(id, "sim_speed_adjustments") {
            self.apply_speed(modal);
        }
        Ok(ModalOutcome::Acknowledge)
    }

    /// Takes in an accuracy input; a value is clamped into 0 to 100.
    fn apply_acc(&mut self, input: FieldInput<Decimal>) -> (result: Result<
        ModalOutcome,
        ModalError,
    >)
        ensures
            (final(self)@, result) == old(self)@.on_acc(input),
    {
        match input {
            FieldInput::Absent => {
                self.data.acc = None;
                Ok(ModalOutcome::Acknowledge)
            },
            FieldInput::Valid(d) => {
                self.data.acc = Some(clamp_percent(d.single));
                Ok(ModalOutcome::Acknowledge)
            },
            FieldInput::Invalid => Ok(ModalOutcome::Rejected),
        }
    }

    /// Takes in the input for a count.
    fn apply_count(&mut self, count: CountField, input: FieldInput<u32>) -> (result: Result<
        ModalOutcome,
        ModalError,
    >)
        ensures
            (final(self)@, result) == old(self)@.on_count(count, input),
    {
        match input {
            FieldInput::Absent => {
                self.data.set_count(count, None);
                Ok(ModalOutcome::Acknowledge)
            },
            FieldInput::Valid(n) => {
                self.data.set_count(count, Some(n));
                Ok(ModalOutcome::Acknowledge)
            },
            FieldInput::Invalid => Ok(ModalOutcome::Rejected),
        }
    }

    /// Takes in the form for the four difficulty settings.
    fn apply_attrs(&mut self, modal: &ModalEvent)
        ensures
            final(self)@ == old(self)@.with_data(old(self)@.with_attrs(*modal)),
    {
        let ar = modal.read_attr("sim_ar");
        let cs = modal.read_attr("sim_cs");
        let hp = modal.read_attr("sim_hp");
        let od = modal.read_attr("sim_od");
        self.data.attrs.ar = store_single(ar, self.data.attrs.ar);
        self.data.attrs.cs = store_single(cs, self.data.attrs.cs);
        self.data.attrs.hp = store_single(hp, self.data.attrs.hp);
        self.data.attrs.od = store_single(od, self.data.attrs.od);
    }

    /// Takes in the form for the clock rate and the beats per minute.
    fn apply_speed(&mut self, modal: &ModalEvent)
        ensures
            final(self)@ == old(self)@.with_data(old(self)@.with_speed(*modal)),
    {
        let clock_rate = modal.read_attr("sim_clock_rate");
        let bpm = modal.read_attr("sim_bpm");
        self.data.clock_rate = store_double(clock_rate, self.data.clock_rate);
        self.data.bpm = store_single(bpm, self.data.bpm);
    }

    /// Takes in a mods input: without text the mods are cleared; with text
    /// they are set where the text spells mods that all exist in the map's
    /// mode and go together, and left alone otherwise.
    fn apply_mods(&mut self, has_text: bool, parsed: &Option<GameModsIntermode>) -> (outcome:
        ModalOutcome)
        ensures
            (final(self)@, Ok::<ModalOutcome, ModalError>(outcome)) == old(self)@.on_mods(
                if has_text {
                    Some(Seq::empty())
                } else {
                    None
                },
                *parsed,
            ),
    {
        if !has_text {
            self.data.mods = None;
            return ModalOutcome::Acknowledge;
        }
        match parsed {
            None => ModalOutcome::Rejected,
            Some(spelled) => match try_with_mode(spelled, self.map.mode()) {
                Some(mods) => {
                    if is_valid(&mods) {
                        self.data.mods = Some(mods);
                        ModalOutcome::Acknowledge
                    } else {
                        ModalOutcome::Rejected
                    }
                },
                None => ModalOutcome::Rejected,
            },
        }
    }
}

fn store_single(input: FieldInput<Decimal>, stored: Option<SingleBits>) -> (value: Option<
    SingleBits,
>)
    ensures
        value == single_input(input).apply(stored),
{
    match input {
        FieldInput::Absent => None,
        FieldInput::Valid(d) => Some(d.single),
        FieldInput::Invalid => stored,
    }
}

fn store_double(input: FieldInput<Decimal>, stored: Option<DoubleBits>) -> (value: Option<
    DoubleBits,
>)
    ensures
        value == double_input(input).apply(stored),
{
    match input {
        FieldInput::Absent => None,
        FieldInput::Valid(d) => Some(d.double),
        FieldInput::Invalid => stored,
    }
}

/// Building a page twice, with nothing in between, shows the same body and
/// the same text both times, and leaves the state as the first time left
/// it. The two pages are the same altogether where the state asked for an
/// acknowledgment before the first.
pub proof fn lemma_build_page_twice(state: SimulateState, values: SimulateValues)
    ensures
        state.after_page().after_page() == state.after_page(),
        state.after_page().page(values).is_some() == state.page(values).is_some(),
        state.page(values) matches Some(first) ==> {
            let second = state.after_page().page(values).unwrap();
            &&& second.embed == first.embed
            &&& second.content == first.content
            &&& state.defer ==> second == first
        },
{
}

/// A click of anyone but the owner is ignored and changes nothing.
pub proof fn lemma_stranger_click_is_ignored(state: SimulateState, event: ComponentEvent)
    requires
        event.user is Some,
        event.user != Some(state.msg_owner),
    ensures
        state.on_component(event) == (state, ComponentResultView::Ignore),
{
}

/// A form of anyone but the owner changes nothing.
pub proof fn lemma_stranger_form_is_ignored(
    state: SimulateState,
    event: ModalEvent,
    parsed: Option<GameModsIntermode>,
)
    requires
        event.user is Some,
        event.user != Some(state.msg_owner),
    ensures
        state.on_modal(event, parsed) == (state, Ok::<ModalOutcome, ModalError>(
            ModalOutcome::NotOwner,
        )),
{
}

/// The forms that set a count are neither the mods form nor the accuracy
/// form.
pub proof fn lemma_count_forms_apart(id: Seq<char>)
    requires
        count_field(id) is Some,
    ensures
        id != "sim_mods"@,
        id != "sim_acc"@,
{
    reveal_strlit("sim_mods");
    reveal_strlit("sim_acc");
    reveal_strlit("sim_combo");
    reveal_strlit("sim_geki");
    reveal_strlit("sim_katu");
    reveal_strlit("sim_n300");
    reveal_strlit("sim_n100");
    reveal_strlit("sim_n50");
    reveal_strlit("sim_miss");
    reveal_strlit("sim_score");
    reveal_strlit("sim_slider_ends");
    reveal_strlit("sim_large_ticks");
    assert("sim_mods"@.len() == 8 && "sim_mods"@[4] == 'm' && "sim_mods"@[5] == 'o');
    assert("sim_acc"@.len() == 7 && "sim_acc"@[4] == 'a');
    if id == "sim_combo"@ {
        assert(id.len() == 9);
    } else if id == "sim_geki"@ {
        assert(id[4] == 'g');
    } else if id == "sim_katu"@ {
        assert(id[4] == 'k');
    } else if id == "sim_n300"@ {
        assert(id[4] == 'n');
    } else if id == "sim_n100"@ {
        assert(id[4] == 'n');
    } else if id == "sim_n50"@ {
        assert(id[4] == 'n');
    } else if id == "sim_miss"@ {
        assert(id[5] == 'i');
    } else if id == "sim_score"@ {
        assert(id.len() == 9);
    } else if id == "sim_slider_ends"@ {
        assert(id.len() == 15);
    } else {
        assert(id == "sim_large_ticks"@);
        assert(id.len() == 15);
    }
}

/// What a count holds after its input was taken in.
pub proof fn lemma_count_input(state: SimulateState, count: CountField, input: FieldInput<u32>)
    ensures
        ({
            let (after, outcome) = state.on_count(count, input);
            &&& input is Absent ==> after.data.count(count) is None
            &&& input matches FieldInput::Valid(n) ==> after.data.count(count) == Some(n)
            &&& input is Invalid ==> after == state
            &&& after.map == state.map && after.defer == state.defer && after.msg_owner
                == state.msg_owner
        }),
{
}

/// The owner's form for a count: an input that holds nothing clears the
/// count, one that spells a number sets it, and one that holds anything
/// else leaves the whole state as it was.
pub proof fn lemma_count_form(
    state: SimulateState,
    event: ModalEvent,
    parsed: Option<GameModsIntermode>,
)
    requires
        event.user == Some(state.msg_owner),
        event.first_field() is Some,
        count_field(event.custom_id@) is Some,
    ensures
        ({
            let input = event.first_field().unwrap().count();
            let count = count_field(event.custom_id@).unwrap();
            let (after, outcome) = state.on_modal(event, parsed);
            &&& input is Absent ==> after.data.count(count) is None
            &&& input matches FieldInput::Valid(n) ==> after.data.count(count) == Some(n)
            &&& input is Invalid ==> after == state
            &&& after.map == state.map && after.defer == state.defer && after.msg_owner
                == state.msg_owner
        }),
{
    let id = event.custom_id@;
    let field = event.first_field().unwrap();
    let count = count_field(id).unwrap();
    lemma_count_forms_apart(id);
    assert(state.on_modal(event, parsed) == state.on_input(event, field, parsed));
    assert(state.on_input(event, field, parsed) == state.on_count(count, field.count()));
    lemma_count_input(state, count, field.count());
}

/// The owner's accuracy form: nothing clears the accuracy, a number sets it
/// clamped, anything else leaves the whole state as it was.
pub proof fn lemma_acc_form(
    state: SimulateState,
    event: ModalEvent,
    parsed: Option<GameModsIntermode>,
)
    requires
        event.user == Some(state.msg_owner),
        event.first_field() is Some,
        event.custom_id@ == "sim_acc"@,
    ensures
        ({
            let input = event.first_field().unwrap().decimal();
            let (after, outcome) = state.on_modal(event, parsed);
            &&& input is Absent ==> after.data.acc is None
            &&& input matches FieldInput::Valid(d) ==> after.data.acc == Some(
                clamped_percent(d.single),
            )
            &&& input is Invalid ==> after == state
        }),
{
    reveal_strlit("sim_mods");
    reveal_strlit("sim_acc");
    assert("sim_acc"@.len() != "sim_mods"@.len());
}

/// The owner's form for the difficulty settings: each of its four inputs
/// clears its setting where it holds nothing, sets it where it holds a
/// number, and leaves it alone where it holds anything else. Nothing but
/// the four settings changes.
pub proof fn lemma_attrs_form(
    state: SimulateState,
    event: ModalEvent,
    parsed: Option<GameModsIntermode>,
)
    requires
        event.user == Some(state.msg_owner),
        event.first_field() is Some,
        event.custom_id@ == "sim_attrs"@,
    ensures
        ({
            let (after, outcome) = state.on_modal(event, parsed);
            &&& outcome == Ok::<ModalOutcome, ModalError>(ModalOutcome::Acknowledge)
            &&& after.data.attrs.ar == single_input(event.attr("sim_ar"@)).apply(state.data.attrs.ar)
            &&& after.data.attrs.cs == single_input(event.attr("sim_cs"@)).apply(state.data.attrs.cs)
            &&& after.data.attrs.hp == single_input(event.attr("sim_hp"@)).apply(state.data.attrs.hp)
            &&& after.data.attrs.od == single_input(event.attr("sim_od"@)).apply(state.data.attrs.od)
            &&& after == state.with_data(SimulateData { attrs: after.data.attrs, ..state.data })
        }),
{
    let id = event.custom_id@;
    reveal_strlit("sim_attrs");
    reveal_strlit("sim_mods");
    reveal_strlit("sim_acc");
    reveal_strlit("sim_combo");
    reveal_strlit("sim_score");
    assert(id.len() == 9 && id[4] == 'a');
    assert("sim_combo"@[4] == 'c');
    assert("sim_score"@[4] == 's');
    assert(id != "sim_mods"@ && id != "sim_acc"@);
    if count_field(id) is Some {
        lemma_count_forms_apart(id);
        lemma_count_form_lengths(id);
    }
}

/// The forms that set a count and have a name of nine characters are
/// those for the combo and for the score.
pub proof fn lemma_count_form_lengths(id: Seq<char>)
    requires
        count_field(id) is Some,
        id.len() == 9,
    ensures
        id == "sim_combo"@ || id == "sim_score"@,
{
    reveal_strlit("sim_geki");
    reveal_strlit("sim_katu");
    reveal_strlit("sim_n300");
    reveal_strlit("sim_n100");
    reveal_strlit("sim_n50");
    reveal_strlit("sim_miss");
    reveal_strlit("sim_slider_ends");
    reveal_strlit("sim_large_ticks");
}

/// The owner's form for the clock rate and the beats per minute: each of
/// its inputs clears its value where it holds nothing, sets it where it
/// holds a number, and leaves it alone where it holds anything else.
pub proof fn lemma_speed_form(
    state: SimulateState,
    event: ModalEvent,
    parsed: Option<GameModsIntermode>,
)
    requires
        event.user == Some(state.msg_owner),
        event.first_field() is Some,
        event.custom_id@ == "sim_speed_adjustments"@,
    ensures
        ({
            let (after, outcome) = state.on_modal(event, parsed);
            &&& outcome == Ok::<ModalOutcome, ModalError>(ModalOutcome::Acknowledge)
            &&& after.data.clock_rate == double_input(event.attr("sim_clock_rate"@)).apply(
                state.data.clock_rate,
            )
            &&& after.data.bpm == single_input(event.attr("sim_bpm"@)).apply(state.data.bpm)
            &&& after == state.with_data(
                SimulateData {
                    clock_rate: after.data.clock_rate,
                    bpm: after.data.bpm,
                    ..state.data
                },
            )
        }),
{
    lemma_speed_form_apart(event.custom_id@);
}

/// The name of a form that sets a count has at most fifteen characters.
pub proof fn lemma_count_form_names(id: Seq<char>)
    requires
        count_field(id) is Some,
    ensures
        7 <= id.len() <= 15,
{
    reveal_strlit("sim_combo");
    reveal_strlit("sim_geki");
    reveal_strlit("sim_katu");
    reveal_strlit("sim_n300");
    reveal_strlit("sim_n100");
    reveal_strlit("sim_n50");
    reveal_strlit("sim_miss");
    reveal_strlit("sim_score");
    reveal_strlit("sim_slider_ends");
    reveal_strlit("sim_large_ticks");
}

/// The form for the clock rate is no other form.
pub proof fn lemma_speed_form_apart(id: Seq<char>)
    requires
        id == "sim_speed_adjustments"@,
    ensures
        id != "sim_mods"@,
        id != "sim_acc"@,
        id != "sim_attrs"@,
        count_field(id) is None,
{
    reveal_strlit("sim_speed_adjustments");
    reveal_strlit("sim_attrs");
    reveal_strlit("sim_mods");
    reveal_strlit("sim_acc");
    assert(id.len() == 21);
    if count_field(id) is Some {
        lemma_count_form_names(id);
    }
}

/// The owner's mods form without text clears the mods, whatever they were.
pub proof fn lemma_empty_mods_form(
    state: SimulateState,
    event: ModalEvent,
    parsed: Option<GameModsIntermode>,
)
    requires
        event.user == Some(state.msg_owner),
        event.first_field() is Some,
        event.first_field().unwrap().text() is None,
        event.custom_id@ == "sim_mods"@,
    ensures
        state.on_modal(event, parsed) == (
            state.with_data(SimulateData { mods: None, ..state.data }),
            Ok::<ModalOutcome, ModalError>(ModalOutcome::Acknowledge),
        ),
{
}

} // verus!
