//! The messages that the engine can drive, behind one set of operations.

use crate::active::{ComponentResult, ComponentResultView, ModalError, ModalOutcome};
use crate::embed::{row_views, BuildPage, BuildPageView, ControlRow, ControlRowView, RenderError};
use crate::interaction::{ComponentEvent, ModalEvent};
use crate::pagination::{on_pagination_component, on_pagination_modal, pagination_controls};
use crate::simulate_components::{SimulateComponents, SimulateState};
use crate::simulate_page::SimulateValues;
use crate::top_if::{TopIfPagination, TopIfState};
use rosu_v2::model::mods::GameModsIntermode;
use vstd::prelude::*;

verus! {

/// The values that a page shows and that the message does not hold itself.
pub enum PageValues {
    /// The message needs none.
    Nothing,
    /// The calculated values of a simulation.
    Simulate(SimulateValues),
}

pub enum ActiveMessage {
    Simulate(SimulateComponents),
    TopIf(TopIfPagination),
}

/// The mathematical model of [`ActiveMessage`].
pub enum ActiveView {
    Simulate(SimulateState),
    TopIf(TopIfState),
}

impl View for ActiveMessage {
    type V = ActiveView;

    open spec fn view(&self) -> ActiveView {
        match self {
            ActiveMessage::Simulate(m) => ActiveView::Simulate(m@),
            ActiveMessage::TopIf(m) => ActiveView::TopIf(m@),
        }
    }
}

impl ActiveView {
    /// The user who may act on the message.
    pub open spec fn msg_owner(self) -> u64 {
        match self {
            ActiveView::Simulate(m) => m.msg_owner,
            ActiveView::TopIf(m) => m.msg_owner,
        }
    }

    /// The page that shows `values`, or why there is none.
    pub open spec fn page(self, values: PageValues) -> Result<BuildPageView, RenderError> {
        match self {
            ActiveView::Simulate(m) => match values {
                PageValues::Simulate(v) => match m.page(v) {
                    Some(page) => Ok(page),
                    None => Err(RenderError::UnknownVersion),
                },
                PageValues::Nothing => Err(RenderError::MissingValues),
            },
            ActiveView::TopIf(m) => Ok(m.page()),
        }
    }

    /// The message after a page was built from `values`.
    pub open spec fn after_page(self, values: PageValues) -> ActiveView {
        match self {
            ActiveView::Simulate(m) => match values {
                PageValues::Simulate(v) => ActiveView::Simulate(m.after_page()),
                PageValues::Nothing => self,
            },
            ActiveView::TopIf(m) => self,
        }
    }

    pub open spec fn controls(self) -> Seq<ControlRowView> {
        match self {
            ActiveView::Simulate(m) => m.controls(),
            ActiveView::TopIf(m) => pagination_controls(m.pages),
        }
    }

    /// The message after a click, and the answer to it.
    pub open spec fn on_component(self, event: ComponentEvent) -> (ActiveView, ComponentResultView) {
        match self {
            ActiveView::Simulate(m) => (
                ActiveView::Simulate(m.on_component(event).0),
                m.on_component(event).1,
            ),
            ActiveView::TopIf(m) => (
                ActiveView::TopIf(
                    m.with_pages(on_pagination_component(m.pages, m.msg_owner, event).0),
                ),
                on_pagination_component(m.pages, m.msg_owner, event).1,
            ),
        }
    }

    /// The message after an acknowledgment that it asked for, and the
    /// answer to the click that made it ask.
    pub open spec fn after_defer(self, token: usize, acknowledged: bool) -> (
        ActiveView,
        ComponentResultView,
    ) {
        match self {
            ActiveView::Simulate(m) => (
                ActiveView::Simulate(m.after_defer(token, acknowledged).0),
                m.after_defer(token, acknowledged).1,
            ),
            ActiveView::TopIf(m) => (self, ComponentResultView::Ignore),
        }
    }

    /// The message after a submitted form, and what became of the form.
    /// `parsed` is what the text of a mods input spells.
    pub open spec fn on_modal(self, event: ModalEvent, parsed: Option<GameModsIntermode>) -> (
        ActiveView,
        Result<ModalOutcome, ModalError>,
    ) {
        match self {
            ActiveView::Simulate(m) => (
                ActiveView::Simulate(m.on_modal(event, parsed).0),
                m.on_modal(event, parsed).1,
            ),
            ActiveView::TopIf(m) => (
                ActiveView::TopIf(m.with_pages(on_pagination_modal(m.pages, m.msg_owner, event).0)),
                on_pagination_modal(m.pages, m.msg_owner, event).1,
            ),
        }
    }
}

impl ActiveMessage {
    /// Builds the page of the message. A simulation needs its calculated
    /// values for that; a list needs nothing.
    pub fn build_page(&mut self, values: &PageValues) -> (result: Result<BuildPage, RenderError>)
        ensures
            result.is_ok() == old(self)@.page(*values).is_ok(),
            result.is_ok() ==> result.unwrap()@ == old(self)@.page(*values).unwrap(),
            result is Err ==> result->Err_0 == old(self)@.page(*values)->Err_0,
            final(self)@ == old(self)@.after_page(*values),
    {
        match self {
            ActiveMessage::Simulate(m) => match values {
                PageValues::Simulate(v) => m.build_page(v),
                PageValues::Nothing => Err(RenderError::MissingValues),
            },
            ActiveMessage::TopIf(m) => Ok(m.build_page()),
        }
    }

    /// Builds the controls under the message.
    pub fn build_components(&self) -> (rows: Vec<ControlRow>)
        ensures
            row_views(rows@) == self@.controls(),
    {
        match self {
            ActiveMessage::Simulate(m) => m.build_components(),
            ActiveMessage::TopIf(m) => m.build_components(),
        }
    }

    /// Answers a click.
    pub fn handle_component(&mut self, component: &ComponentEvent) -> (result: ComponentResult)
        ensures
            (final(self)@, result@) == old(self)@.on_component(*component),
    {
        match self {
            ActiveMessage::Simulate(m) => m.handle_component(component),
            ActiveMessage::TopIf(m) => m.handle_component(component),
        }
    }

    /// Takes in how an acknowledgment went that the message asked for.
    pub fn complete_defer(&mut self, token: usize, acknowledged: bool) -> (result: ComponentResult)
        ensures
            (final(self)@, result@) == old(self)@.after_defer(token, acknowledged),
    {
        match self {
            ActiveMessage::Simulate(m) => m.complete_defer(token, acknowledged),
            ActiveMessage::TopIf(m) => ComponentResult::Ignore,
        }
    }

    /// Takes in a submitted form.
    pub fn handle_modal(&mut self, modal: &ModalEvent) -> (result: Result<ModalOutcome, ModalError>)
        ensures
            exists|parsed: Option<GameModsIntermode>|
                (final(self)@, result) == #[trigger] old(self)@.on_modal(*modal, parsed),
    {
        let ghost mut spelled: Option<GameModsIntermode> = None;
        let result = match self {
            ActiveMessage::Simulate(m) => {
                let ghost before = m@;
                let result = m.handle_modal(modal);
                proof {
                    spelled = choose|parsed: Option<GameModsIntermode>|
                        (m@, result) == #[trigger] before.on_modal(*modal, parsed);
                }
                result
            },
            ActiveMessage::TopIf(m) => m.handle_modal(modal),
        };
        assert((self@, result) == old(self)@.on_modal(*modal, spelled));
        result
    }
}

} // verus!
