//! What a message answers when a user acts on it.

use vstd::prelude::*;

verus! {

/// A text input of a form.
#[derive(Debug)]
pub struct TextInput {
    pub custom_id: String,
    pub label: String,
    pub placeholder: String,
    pub required: bool,
}

pub struct TextInputView {
    pub custom_id: Seq<char>,
    pub label: Seq<char>,
    pub placeholder: Seq<char>,
    pub required: bool,
}

impl View for TextInput {
    type V = TextInputView;

    open spec fn view(&self) -> TextInputView {
        TextInputView {
            custom_id: self.custom_id@,
            label: self.label@,
            placeholder: self.placeholder@,
            required: self.required,
        }
    }
}

/// A form that the platform is asked to open.
#[derive(Debug)]
pub struct ModalSpec {
    pub custom_id: String,
    pub title: String,
    pub inputs: Vec<TextInput>,
}

pub struct ModalSpecView {
    pub custom_id: Seq<char>,
    pub title: Seq<char>,
    pub inputs: Seq<TextInputView>,
}

impl View for ModalSpec {
    type V = ModalSpecView;

    open spec fn view(&self) -> ModalSpecView {
        ModalSpecView {
            custom_id: self.custom_id@,
            title: self.title@,
            inputs: self.inputs@.map_values(|i: TextInput| i@),
        }
    }
}

/// An input that need not be filled in.
pub open spec fn optional_input(
    custom_id: Seq<char>,
    label: Seq<char>,
    placeholder: Seq<char>,
) -> TextInputView {
    TextInputView { custom_id, label, placeholder, required: false }
}

/// Builds an input that need not be filled in.
pub fn text_input(custom_id: &str, label: &str, placeholder: &str) -> (input: TextInput)
    ensures
        input@ == optional_input(custom_id@, label@, placeholder@),
{
    TextInput {
        custom_id: custom_id.to_owned(),
        label: label.to_owned(),
        placeholder: placeholder.to_owned(),
        required: false,
    }
}

/// Builds a form from its inputs.
pub fn modal(custom_id: &str, title: &str, inputs: Vec<TextInput>) -> (form: ModalSpec)
    ensures
        form@ == (ModalSpecView {
            custom_id: custom_id@,
            title: title@,
            inputs: inputs@.map_values(|i: TextInput| i@),
        }),
{
    ModalSpec { custom_id: custom_id.to_owned(), title: title.to_owned(), inputs }
}

/// Why a click could not be answered.
#[derive(Debug)]
pub enum ComponentError {
    /// The platform did not say who acted.
    MissingUser,
    /// A menu was used and nothing was chosen.
    MissingVersion,
    /// The chosen version is not one of the known ones.
    UnknownVersion(String),
    /// The platform refused the acknowledgment.
    DeferFailed,
}

pub enum ComponentErrorView {
    MissingUser,
    MissingVersion,
    UnknownVersion(Seq<char>),
    DeferFailed,
}

impl View for ComponentError {
    type V = ComponentErrorView;

    open spec fn view(&self) -> ComponentErrorView {
        match self {
            ComponentError::MissingUser => ComponentErrorView::MissingUser,
            ComponentError::MissingVersion => ComponentErrorView::MissingVersion,
            ComponentError::UnknownVersion(v) => ComponentErrorView::UnknownVersion(v@),
            ComponentError::DeferFailed => ComponentErrorView::DeferFailed,
        }
    }
}

/// The answer to a click.
#[derive(Debug)]
pub enum ComponentResult {
    /// Not for this message, or not from its owner: nothing is to be done.
    Ignore,
    /// The click failed; the caller reports it and goes on.
    Error(ComponentError),
    /// The state changed: the page is to be built and sent again.
    BuildPage,
    /// A form is to be opened.
    CreateModal(ModalSpec),
    /// The callback is to be acknowledged first; the outcome of that is then
    /// handed back together with the number given here.
    Defer(usize),
}

pub enum ComponentResultView {
    Ignore,
    Error(ComponentErrorView),
    BuildPage,
    CreateModal(ModalSpecView),
    Defer(usize),
}

impl View for ComponentResult {
    type V = ComponentResultView;

    open spec fn view(&self) -> ComponentResultView {
        match self {
            ComponentResult::Ignore => ComponentResultView::Ignore,
            ComponentResult::Error(e) => ComponentResultView::Error(e@),
            ComponentResult::BuildPage => ComponentResultView::BuildPage,
            ComponentResult::CreateModal(m) => ComponentResultView::CreateModal(m@),
            ComponentResult::Defer(n) => ComponentResultView::Defer(*n),
        }
    }
}

/// Why a submitted form could not be read.
#[derive(Clone, Copy, Debug, PartialEq, Eq)]
pub enum ModalError {
    /// The platform did not say who submitted.
    MissingUser,
    /// The form holds no input.
    MissingInput,
}

/// What became of a submitted form.
#[derive(Clone, Copy, Debug, PartialEq, Eq)]
pub enum ModalOutcome {
    /// Submitted by someone else than the owner: nothing was touched.
    NotOwner,
    /// An input was no value: the state is as it was, and the callback is
    /// left unacknowledged.
    Rejected,
    /// The form was taken in; the callback is to be acknowledged.
    Acknowledge,
}

} // verus!
