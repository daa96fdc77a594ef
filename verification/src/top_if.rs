//! A paged list of a user's top scores under other mods.

use crate::active::{ComponentResult, ModalError, ModalOutcome};
use crate::embed::{
    row_views, Author, BuildPage, BuildPageView, ControlRow, Embed, EmbedView, Footer,
    FooterView,
};
use crate::interaction::{ComponentEvent, ModalEvent};
use crate::pages::{lemma_last_index, Pages, PagesView};
use crate::pagination::{
    handle_pagination_component, handle_pagination_modal, on_pagination_component,
    on_pagination_modal, pagination_components, pagination_controls,
};
use crate::text::{decimal, push_decimal};
use vstd::prelude::*;

verus! {

/// The texts of `lines`, one per line.
pub open spec fn joined(lines: Seq<String>) -> Seq<char>
    decreases lines.len(),
{
    if lines.len() == 0 {
        Seq::empty()
    } else if lines.len() == 1 {
        lines[0]@
    } else {
        joined(lines.drop_last()) + "\n"@ + lines.last()@
    }
}

/// Where the page that starts at `index` ends.
pub open spec fn page_end(pages: PagesView) -> nat {
    if pages.index + pages.per_page < pages.total {
        pages.index + pages.per_page
    } else {
        pages.total
    }
}

/// The line under a page: where it stands among the pages, and a note
/// behind that where there is one.
pub open spec fn page_footer(pages: PagesView, note: Option<String>) -> Seq<char> {
    let place = "Page "@ + decimal(pages.curr_page()) + "/"@ + decimal(pages.last_page());
    match note {
        Some(n) => place + n@,
        None => place,
    }
}

/// The mathematical model of [`TopIfPagination`].
pub struct TopIfState {
    pub author: Author,
    pub thumbnail: String,
    pub title: String,
    /// The entries, each as the text to show.
    pub entries: Seq<String>,
    /// What the line under the page says of the user's rank.
    pub rank_note: Option<String>,
    pub content: String,
    pub msg_owner: u64,
    pub pages: PagesView,
}

impl TopIfState {
    /// The pager runs over the entries, five to a page.
    pub open spec fn wf(self) -> bool {
        &&& self.pages.wf()
        &&& self.pages.per_page == 5
        &&& self.pages.total == self.entries.len()
    }

    /// The entries of the current page.
    pub open spec fn shown(self) -> Seq<String> {
        self.entries.subrange(self.pages.index as int, page_end(self.pages) as int)
    }

    pub open spec fn page(self) -> BuildPageView {
        BuildPageView {
            embed: EmbedView {
                author: Some(self.author@),
                title: Some(self.title@),
                description: Some(joined(self.shown())),
                url: None,
                image: None,
                thumbnail: Some(self.thumbnail@),
                footer: Some(
                    FooterView { text: page_footer(self.pages, self.rank_note), icon_url: None },
                ),
                fields: Seq::empty(),
            },
            defer: false,
            content: Some(self.content@),
        }
    }

    pub open spec fn with_pages(self, pages: PagesView) -> TopIfState {
        TopIfState { pages, ..self }
    }
}

pub struct TopIfPagination {
    author: Author,
    thumbnail: String,
    title: String,
    entries: Vec<String>,
    rank_note: Option<String>,
    content: String,
    msg_owner: u64,
    pages: Pages,
}

impl View for TopIfPagination {
    type V = TopIfState;

    closed spec fn view(&self) -> TopIfState {
        TopIfState {
            author: self.author,
            thumbnail: self.thumbnail,
            title: self.title,
            entries: self.entries@,
            rank_note: self.rank_note,
            content: self.content,
            msg_owner: self.msg_owner,
            pages: self.pages@,
        }
    }
}

impl TopIfPagination {
    #[verifier::type_invariant]
    spec fn inv(self) -> bool {
        self@.wf()
    }

    /// A list on its first page, five entries to a page.
    pub fn new(
        author: Author,
        thumbnail: String,
        title: String,
        entries: Vec<String>,
        rank_note: Option<String>,
        content: String,
        msg_owner: u64,
    ) -> (list: Self)
        ensures
            list@ == (TopIfState {
                author,
                thumbnail,
                title,
                entries: entries@,
                rank_note,
                content,
                msg_owner,
                pages: PagesView { index: 0, per_page: 5, total: entries@.len() },
            }),
            list@.wf(),
    {
        let pages = Pages::new(5, entries.len());
        TopIfPagination { author, thumbnail, title, entries, rank_note, content, msg_owner, pages }
    }

    pub fn pages(&self) -> (pages: &Pages)
        ensures
            pages@ == self@.pages,
            self@.wf(),
    {
        proof {
            use_type_invariant(self);
        }
        &self.pages
    }

    pub fn msg_owner(&self) -> (owner: u64)
        ensures
            owner == self@.msg_owner,
    {
        self.msg_owner
    }

    /// Builds the current page. It always goes out at once.
    pub fn build_page(&self) -> (page: BuildPage)
        ensures
            page@ == self@.page(),
    {
        proof {
            use_type_invariant(self);
            lemma_last_index(self@.pages);
        }
        let index = self.pages.index();
        let per_page = self.pages.per_page();
        let len = self.entries.len();
        let end: usize = if len - index > per_page {
            index + per_page
        } else {
            len
        };
        let mut description = String::new();
        let mut i: usize = index;
        while i < end
            invariant
                index <= i <= end <= self.entries@.len(),
                description@ == joined(self.entries@.subrange(index as int, i as int)),
            decreases end - i,
        {
            if i > index {
                description.append("\n");
            }
            description.append(self.entries[i].as_str());
            proof {
                let longer = self.entries@.subrange(index as int, i + 1);
                assert(longer.drop_last() == self.entries@.subrange(index as int, i as int));
                assert(longer.last() == self.entries@[i as int]);
                if i == index {
                    assert(Seq::<char>::empty() + self.entries@[i as int]@
                        == self.entries@[i as int]@);
                }
            }
            i = i + 1;
        }
        let mut footer = "Page ".to_owned();
        push_decimal(&mut footer, self.pages.curr_page() as u64);
        footer.append("/");
        push_decimal(&mut footer, self.pages.last_page() as u64);
        match &self.rank_note {
            Some(note) => footer.append(note.as_str()),
            None => {},
        }
        let page = BuildPage {
            embed: Embed {
                author: Some(self.author.clone()),
                title: Some(self.title.clone()),
                description: Some(description),
                url: None,
                image: None,
                thumbnail: Some(self.thumbnail.clone()),
                footer: Some(Footer { text: footer, icon_url: None }),
                fields: Vec::new(),
            },
            defer: false,
            content: Some(self.content.clone()),
        };
        assert(page@.embed.fields =~= Seq::empty());
        page
    }

    /// The controls that turn the pages.
    pub fn build_components(&self) -> (rows: Vec<ControlRow>)
        ensures
            row_views(rows@) == pagination_controls(self@.pages),
    {
        pagination_components(&self.pages)
    }

    /// Answers a click: the owner's clicks turn the pages.
    pub fn handle_component(&mut self, component: &ComponentEvent) -> (result: ComponentResult)
        ensures
            final(self)@ == old(self)@.with_pages(
                on_pagination_component(old(self)@.pages, old(self)@.msg_owner, *component).0,
            ),
            result@ == on_pagination_component(
                old(self)@.pages,
                old(self)@.msg_owner,
                *component,
            ).1,
            final(self)@.wf(),
    {
        proof {
            use_type_invariant(&*self);
        }
        let mut pages = self.pages;
        let result = handle_pagination_component(component, self.msg_owner, &mut pages);
        proof {
            lemma_pager_kept(self@.pages, self@.msg_owner, *component);
        }
        self.pages = pages;
        result
    }

    /// Takes in the form that asks for a page number.
    pub fn handle_modal(&mut self, modal: &ModalEvent) -> (result: Result<ModalOutcome, ModalError>)
        ensures
            final(self)@ == old(self)@.with_pages(
                on_pagination_modal(old(self)@.pages, old(self)@.msg_owner, *modal).0,
            ),
            result == on_pagination_modal(old(self)@.pages, old(self)@.msg_owner, *modal).1,
            final(self)@.wf(),
    {
        proof {
            use_type_invariant(&*self);
        }
        let mut pages = self.pages;
        let result = handle_pagination_modal(modal, self.msg_owner, &mut pages);
        proof {
            crate::pages::lemma_step_keeps_wf(self@.pages, crate::pages::PageStep::Jump(0));
            if pages@ != self@.pages {
                let text = modal.first_field().unwrap().text().unwrap();
                let page = crate::text::parse_unsigned(text, usize::MAX as nat).unwrap();
                crate::pages::lemma_step_keeps_wf(
                    self@.pages,
                    crate::pages::PageStep::Jump(page as usize),
                );
            }
        }
        self.pages = pages;
        result
    }
}

/// A click leaves the pager well-formed, over as many entries and with as
/// many to a page as before.
pub proof fn lemma_pager_kept(pages: PagesView, owner: u64, event: ComponentEvent)
    requires
        pages.wf(),
    ensures
        on_pagination_component(pages, owner, event).0.wf(),
        on_pagination_component(pages, owner, event).0.per_page == pages.per_page,
        on_pagination_component(pages, owner, event).0.total == pages.total,
{
    let step = crate::pagination::pagination_step(event.custom_id@);
    if step is Some {
        crate::pages::lemma_step_keeps_wf(pages, step.unwrap());
    }
}

} // verus!
