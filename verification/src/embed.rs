//! What a message shows: the page body and the controls under it.

use vstd::prelude::*;

verus! {

/// The characters of an optional text.
pub open spec fn opt_text(text: Option<String>) -> Option<Seq<char>> {
    match text {
        Some(t) => Some(t@),
        None => None,
    }
}

/// A copy of an optional text.
pub fn copy_opt_text(text: &Option<String>) -> (copy: Option<String>)
    ensures
        copy == *text,
{
    match text {
        Some(t) => Some(t.clone()),
        None => None,
    }
}

/// One named value of a page.
#[derive(Debug)]
pub struct EmbedField {
    pub name: String,
    pub value: String,
    pub inline: bool,
}

pub struct EmbedFieldView {
    pub name: Seq<char>,
    pub value: Seq<char>,
    pub inline: bool,
}

impl View for EmbedField {
    type V = EmbedFieldView;

    open spec fn view(&self) -> EmbedFieldView {
        EmbedFieldView { name: self.name@, value: self.value@, inline: self.inline }
    }
}

impl Clone for EmbedField {
    fn clone(&self) -> (copy: Self)
        ensures
            copy == *self,
    {
        EmbedField { name: self.name.clone(), value: self.value.clone(), inline: self.inline }
    }
}

/// The views of a run of fields.
pub open spec fn field_views(fields: Seq<EmbedField>) -> Seq<EmbedFieldView> {
    fields.map_values(|f: EmbedField| f@)
}

/// The line under a page.
#[derive(Debug)]
pub struct Footer {
    pub text: String,
    pub icon_url: Option<String>,
}

pub struct FooterView {
    pub text: Seq<char>,
    pub icon_url: Option<Seq<char>>,
}

impl View for Footer {
    type V = FooterView;

    open spec fn view(&self) -> FooterView {
        FooterView { text: self.text@, icon_url: opt_text(self.icon_url) }
    }
}

impl Clone for Footer {
    fn clone(&self) -> (copy: Self)
        ensures
            copy == *self,
    {
        Footer { text: self.text.clone(), icon_url: copy_opt_text(&self.icon_url) }
    }
}

/// The line above a page that names whom it is about.
#[derive(Debug)]
pub struct Author {
    pub name: String,
    pub url: Option<String>,
    pub icon_url: Option<String>,
}

pub struct AuthorView {
    pub name: Seq<char>,
    pub url: Option<Seq<char>>,
    pub icon_url: Option<Seq<char>>,
}

impl View for Author {
    type V = AuthorView;

    open spec fn view(&self) -> AuthorView {
        AuthorView { name: self.name@, url: opt_text(self.url), icon_url: opt_text(self.icon_url) }
    }
}

impl Clone for Author {
    fn clone(&self) -> (copy: Self)
        ensures
            copy == *self,
    {
        Author {
            name: self.name.clone(),
            url: copy_opt_text(&self.url),
            icon_url: copy_opt_text(&self.icon_url),
        }
    }
}

/// The body of a page.
#[derive(Debug)]
pub struct Embed {
    pub author: Option<Author>,
    pub title: Option<String>,
    pub description: Option<String>,
    pub url: Option<String>,
    pub image: Option<String>,
    pub thumbnail: Option<String>,
    pub footer: Option<Footer>,
    pub fields: Vec<EmbedField>,
}

pub struct EmbedView {
    pub author: Option<AuthorView>,
    pub title: Option<Seq<char>>,
    pub description: Option<Seq<char>>,
    pub url: Option<Seq<char>>,
    pub image: Option<Seq<char>>,
    pub thumbnail: Option<Seq<char>>,
    pub footer: Option<FooterView>,
    pub fields: Seq<EmbedFieldView>,
}

impl View for Embed {
    type V = EmbedView;

    open spec fn view(&self) -> EmbedView {
        EmbedView {
            author: match self.author {
                Some(a) => Some(a@),
                None => None,
            },
            title: opt_text(self.title),
            description: opt_text(self.description),
            url: opt_text(self.url),
            image: opt_text(self.image),
            thumbnail: opt_text(self.thumbnail),
            footer: match self.footer {
                Some(f) => Some(f@),
                None => None,
            },
            fields: field_views(self.fields@),
        }
    }
}

/// A rendered page, and how it is to be sent.
#[derive(Debug)]
pub struct BuildPage {
    pub embed: Embed,
    /// Whether the callback must be acknowledged before the page is sent.
    pub defer: bool,
    pub content: Option<String>,
}

pub struct BuildPageView {
    pub embed: EmbedView,
    pub defer: bool,
    pub content: Option<Seq<char>>,
}

impl View for BuildPage {
    type V = BuildPageView;

    open spec fn view(&self) -> BuildPageView {
        BuildPageView { embed: self.embed@, defer: self.defer, content: opt_text(self.content) }
    }
}

/// Why no page could be built.
#[derive(Clone, Copy, Debug, PartialEq, Eq)]
pub enum RenderError {
    /// The values that the page shows were not handed in.
    MissingValues,
    /// The state names a version that its list of versions does not hold.
    UnknownVersion,
}

/// A button under a message.
#[derive(Debug)]
pub struct Button {
    pub custom_id: String,
    pub label: String,
    pub disabled: bool,
}

pub struct ButtonView {
    pub custom_id: Seq<char>,
    pub label: Seq<char>,
    pub disabled: bool,
}

impl View for Button {
    type V = ButtonView;

    open spec fn view(&self) -> ButtonView {
        ButtonView { custom_id: self.custom_id@, label: self.label@, disabled: self.disabled }
    }
}

impl Clone for Button {
    fn clone(&self) -> (copy: Self)
        ensures
            copy == *self,
    {
        Button {
            custom_id: self.custom_id.clone(),
            label: self.label.clone(),
            disabled: self.disabled,
        }
    }
}

/// One choice of a menu.
#[derive(Debug)]
pub struct MenuOption {
    pub label: String,
    pub value: String,
}

impl Clone for MenuOption {
    fn clone(&self) -> (copy: Self)
        ensures
            copy == *self,
    {
        MenuOption { label: self.label.clone(), value: self.value.clone() }
    }
}

/// A menu under a message.
#[derive(Debug)]
pub struct Menu {
    pub custom_id: String,
    pub options: Vec<MenuOption>,
}

pub struct MenuView {
    pub custom_id: Seq<char>,
    pub options: Seq<(Seq<char>, Seq<char>)>,
}

impl View for Menu {
    type V = MenuView;

    open spec fn view(&self) -> MenuView {
        MenuView {
            custom_id: self.custom_id@,
            options: self.options@.map_values(|o: MenuOption| (o.label@, o.value@)),
        }
    }
}

impl Clone for Menu {
    fn clone(&self) -> (copy: Self)
        ensures
            copy@ == self@,
    {
        let options = self.options.clone();
        assert(options@ =~= self.options@);
        Menu { custom_id: self.custom_id.clone(), options }
    }
}

/// One row of controls: buttons, or a menu.
#[derive(Debug)]
pub enum ControlRow {
    Buttons(Vec<Button>),
    Menu(Menu),
}

pub enum ControlRowView {
    Buttons(Seq<ButtonView>),
    Menu(MenuView),
}

impl View for ControlRow {
    type V = ControlRowView;

    open spec fn view(&self) -> ControlRowView {
        match self {
            ControlRow::Buttons(buttons) => ControlRowView::Buttons(
                buttons@.map_values(|b: Button| b@),
            ),
            ControlRow::Menu(menu) => ControlRowView::Menu(menu@),
        }
    }
}

impl Clone for ControlRow {
    fn clone(&self) -> (copy: Self)
        ensures
            copy@ == self@,
    {
        match self {
            ControlRow::Buttons(buttons) => {
                let copy = buttons.clone();
                assert(copy@ =~= buttons@);
                ControlRow::Buttons(copy)
            },
            ControlRow::Menu(menu) => ControlRow::Menu(menu.clone()),
        }
    }
}

/// The views of a run of rows.
pub open spec fn row_views(rows: Seq<ControlRow>) -> Seq<ControlRowView> {
    rows.map_values(|r: ControlRow| r@)
}

/// A copy of the rows.
pub fn copy_rows(rows: &Vec<ControlRow>) -> (copy: Vec<ControlRow>)
    ensures
        row_views(copy@) == row_views(rows@),
{
    let copy = rows.clone();
    assert(row_views(copy@) =~= row_views(rows@));
    copy
}

} // verus!
