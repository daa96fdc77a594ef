//! How a paged message answers clicks and forms.

use crate::active::{
    modal, optional_input, text_input, ComponentError, ComponentErrorView, ComponentResult,
    ComponentResultView, ModalError, ModalOutcome, ModalSpecView, TextInput,
};
use crate::embed::{row_views, Button, ButtonView, ControlRow, ControlRowView};
use crate::interaction::{ComponentEvent, ModalEvent};
use crate::pages::{PageStep, Pages, PagesView};
use crate::text::{decimal, parse_unsigned, parse_usize, push_decimal, text_eq};
use vstd::prelude::*;

verus! {

/// The move that the control named `id` makes.
pub open spec fn pagination_step(id: Seq<char>) -> Option<PageStep> {
    if id == "pagination_start"@ {
        Some(PageStep::First)
    } else if id == "pagination_back"@ {
        Some(PageStep::Prev)
    } else if id == "pagination_step"@ {
        Some(PageStep::Next)
    } else if id == "pagination_end"@ {
        Some(PageStep::Last)
    } else {
        None
    }
}

/// The form that asks for a page number.
pub open spec fn jump_form(last_page: nat) -> ModalSpecView {
    ModalSpecView {
        custom_id: "pagination_page"@,
        title: "Jump to a page"@,
        inputs: seq![
            optional_input(
                "page_input"@,
                "Page number"@,
                "Number between 1 and "@ + decimal(last_page),
            ),
        ],
    }
}

/// The pager after a click, and the answer to it.
pub open spec fn on_pagination_component(pages: PagesView, owner: u64, event: ComponentEvent) -> (
    PagesView,
    ComponentResultView,
) {
    let id = event.custom_id@;
    match event.user {
        None => (pages, ComponentResultView::Error(ComponentErrorView::MissingUser)),
        Some(user) => if user != owner {
            (pages, ComponentResultView::Ignore)
        } else if pagination_step(id) is Some {
            (pages.apply(pagination_step(id).unwrap()), ComponentResultView::BuildPage)
        } else if id == "pagination_custom"@ {
            (pages, ComponentResultView::CreateModal(jump_form(pages.last_page())))
        } else {
            (pages, ComponentResultView::Ignore)
        },
    }
}

/// The pager after a submitted form, and what became of the form.
pub open spec fn on_pagination_modal(pages: PagesView, owner: u64, event: ModalEvent) -> (
    PagesView,
    Result<ModalOutcome, ModalError>,
) {
    match event.user {
        None => (pages, Err(ModalError::MissingUser)),
        Some(user) => if user != owner {
            (pages, Ok(ModalOutcome::NotOwner))
        } else {
            match event.first_field() {
                None => (pages, Err(ModalError::MissingInput)),
                Some(field) => if event.custom_id@ != "pagination_page"@ {
                    (pages, Ok(ModalOutcome::Acknowledge))
                } else {
                    match field.text() {
                        None => (pages, Ok(ModalOutcome::Rejected)),
                        Some(text) => match parse_unsigned(text, usize::MAX as nat) {
                            Some(page) => (pages.jump(page), Ok(ModalOutcome::Acknowledge)),
                            None => (pages, Ok(ModalOutcome::Rejected)),
                        },
                    }
                },
            }
        },
    }
}

fn step_of(id: &str) -> (step: Option<PageStep>)
    ensures
        step == pagination_step(id@),
{
    if text_eq(id, "pagination_start") {
        Some(PageStep::First)
    } else if text_eq(id, "pagination_back") {
        Some(PageStep::Prev)
    } else if text_eq(id, "pagination_step") {
        Some(PageStep::Next)
    } else if text_eq(id, "pagination_end") {
        Some(PageStep::Last)
    } else {
        None
    }
}

/// Answers a click on a paged message. Only the owner turns pages.
pub fn handle_pagination_component(
    component: &ComponentEvent,
    msg_owner: u64,
    pages: &mut Pages,
) -> (result: ComponentResult)
    ensures
        (final(pages)@, result@) == on_pagination_component(old(pages)@, msg_owner, *component),
{
    let user = match component.user {
        Some(user) => user,
        None => {
            return ComponentResult::Error(ComponentError::MissingUser);
        },
    };
    if user != msg_owner {
        return ComponentResult::Ignore;
    }
    let id = component.custom_id.as_str();
    match step_of(id) {
        Some(step) => {
            pages.step(step);
            return ComponentResult::BuildPage;
        },
        None => {},
    }
    if text_eq(id, "pagination_custom") {
        let mut placeholder = "Number between 1 and ".to_owned();
        push_decimal(&mut placeholder, pages.last_page() as u64);
        let mut inputs: Vec<TextInput> = Vec::new();
        inputs.push(text_input("page_input", "Page number", placeholder.as_str()));
        let form = modal("pagination_page", "Jump to a page", inputs);
        assert(form@.inputs =~= jump_form(pages@.last_page()).inputs);
        ComponentResult::CreateModal(form)
    } else {
        ComponentResult::Ignore
    }
}

/// Takes in the form that asks for a page number: a number goes to that
/// page, anything else leaves the pager where it is.
pub fn handle_pagination_modal(modal: &ModalEvent, msg_owner: u64, pages: &mut Pages) -> (result:
    Result<ModalOutcome, ModalError>)
    ensures
        (final(pages)@, result) == on_pagination_modal(old(pages)@, msg_owner, *modal),
{
    let user = match modal.user {
        Some(user) => user,
        None => {
            return Err(ModalError::MissingUser);
        },
    };
    if user != msg_owner {
        return Ok(ModalOutcome::NotOwner);
    }
    let field = match modal.first_input() {
        Some(field) => field,
        None => {
            return Err(ModalError::MissingInput);
        },
    };
    if !text_eq(modal.custom_id.as_str(), "pagination_page") {
        return Ok(ModalOutcome::Acknowledge);
    }
    let text = match field.read_text() {
        Some(text) => text,
        None => {
            return Ok(ModalOutcome::Rejected);
        },
    };
    match parse_usize(text.as_str()) {
        Some(page) => {
            pages.jump(page);
            Ok(ModalOutcome::Acknowledge)
        },
        None => Ok(ModalOutcome::Rejected),
    }
}

pub open spec fn button(custom_id: Seq<char>, label: Seq<char>, disabled: bool) -> ButtonView {
    ButtonView { custom_id, label, disabled }
}

/// The controls of a paged message: none where there is one page only,
/// else one row of five buttons, of which those that lead nowhere are
/// disabled.
pub open spec fn pagination_controls(pages: PagesView) -> Seq<ControlRowView> {
    if pages.last_index() == 0 {
        Seq::empty()
    } else {
        let at_start = pages.index == 0;
        let at_end = pages.index == pages.last_index();
        seq![
            ControlRowView::Buttons(
                seq![
                    button("pagination_start"@, "First"@, at_start),
                    button("pagination_back"@, "Back"@, at_start),
                    button("pagination_custom"@, "Jump"@, false),
                    button("pagination_step"@, "Next"@, at_end),
                    button("pagination_end"@, "Last"@, at_end),
                ],
            ),
        ]
    }
}

fn make_button(custom_id: &str, label: &str, disabled: bool) -> (b: Button)
    ensures
        b@ == button(custom_id@, label@, disabled),
{
    Button { custom_id: custom_id.to_owned(), label: label.to_owned(), disabled }
}

/// Builds the controls of a paged message.
pub fn pagination_components(pages: &Pages) -> (rows: Vec<ControlRow>)
    ensures
        row_views(rows@) == pagination_controls(pages@),
{
    let mut rows: Vec<ControlRow> = Vec::new();
    let last = pages.last_index();
    if last == 0 {
        assert(row_views(rows@) =~= Seq::empty());
        return rows;
    }
    let at_start = pages.index() == 0;
    let at_end = pages.index() == last;
    let mut buttons: Vec<Button> = Vec::new();
    buttons.push(make_button("pagination_start", "First", at_start));
    buttons.push(make_button("pagination_back", "Back", at_start));
    buttons.push(make_button("pagination_custom", "Jump", false));
    buttons.push(make_button("pagination_step", "Next", at_end));
    buttons.push(make_button("pagination_end", "Last", at_end));
    let row = ControlRow::Buttons(buttons);
    assert(row@ == pagination_controls(pages@)[0]) by {
        assert(buttons@.map_values(|b: Button| b@) =~= pagination_controls(pages@)[0]->Buttons_0);
    }
    rows.push(row);
    assert(row_views(rows@) =~= pagination_controls(pages@));
    rows
}

/// Anyone but the owner turns no page: a click is ignored, a form changes
/// nothing.
pub proof fn lemma_stranger_turns_no_page(
    pages: PagesView,
    owner: u64,
    click: ComponentEvent,
    form: ModalEvent,
)
    requires
        click.user is Some,
        click.user != Some(owner),
        form.user is Some,
        form.user != Some(owner),
    ensures
        on_pagination_component(pages, owner, click) == (pages, ComponentResultView::Ignore),
        on_pagination_modal(pages, owner, form) == (pages, Ok::<ModalOutcome, ModalError>(
            ModalOutcome::NotOwner,
        )),
{
}

} // verus!
