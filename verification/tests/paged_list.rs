use bathbot::active::{ComponentError, ComponentResult, ModalError, ModalOutcome};
use bathbot::embed::{Author, ControlRow};
use bathbot::interaction::{ComponentEvent, ModalEvent, ModalField, ModalRow};
use bathbot::pages::Pages;
use bathbot::pagination::{
    handle_pagination_component, handle_pagination_modal, pagination_components,
};
use bathbot::top_if::TopIfPagination;

fn list(entries: usize, note: Option<&str>) -> TopIfPagination {
    TopIfPagination::new(
        Author {
            name: "user".to_owned(),
            url: Some("https://osu.ppy.sh/u/2".to_owned()),
            icon_url: None,
        },
        "avatar".to_owned(),
        "Total pp: 100 → **110pp** (+10)".to_owned(),
        (0..entries).map(|i| format!("**#{i}** line one\nline two {i}")).collect(),
        note.map(str::to_owned),
        "`Mods: HD`".to_owned(),
        1,
    )
}

fn click(user: Option<u64>, id: &str) -> ComponentEvent {
    ComponentEvent { user, custom_id: id.to_owned(), values: Vec::new() }
}

fn form(user: Option<u64>, value: Option<&str>) -> ModalEvent {
    ModalEvent {
        user,
        custom_id: "pagination_page".to_owned(),
        rows: vec![ModalRow {
            components: vec![ModalField {
                custom_id: "page_input".to_owned(),
                value: value.map(str::to_owned),
                number: None,
            }],
        }],
    }
}

#[test]
fn twelve_entries_list() {
    let mut list = list(12, None);
    assert_eq!(list.pages().curr_page(), 1);
    assert_eq!(list.pages().last_page(), 3);
    for _ in 0..2 {
        assert!(matches!(
            list.handle_component(&click(Some(1), "pagination_step")),
            ComponentResult::BuildPage
        ));
    }
    assert_eq!(list.pages().curr_page(), 3);
    list.handle_component(&click(Some(1), "pagination_step"));
    assert_eq!(list.pages().curr_page(), 3);
    let page = list.build_page();
    assert_eq!(
        page.embed.description.as_deref(),
        Some("**#10** line one\nline two 10\n**#11** line one\nline two 11")
    );
    assert_eq!(page.embed.footer.unwrap().text, "Page 3/3");
}

#[test]
fn page_shows_five_entries() {
    let list = list(12, Some(" • The current rank for 110pp is approx. #1,234"));
    let page = list.build_page();
    let description = page.embed.description.unwrap();
    assert_eq!(description.lines().count(), 10);
    assert!(description.starts_with("**#0** line one\nline two 0\n**#1**"));
    assert!(description.ends_with("line two 4"));
    assert_eq!(
        page.embed.footer.unwrap().text,
        "Page 1/3 • The current rank for 110pp is approx. #1,234"
    );
    assert_eq!(page.embed.title.as_deref(), Some("Total pp: 100 → **110pp** (+10)"));
    assert_eq!(page.embed.thumbnail.as_deref(), Some("avatar"));
    assert_eq!(page.embed.author.unwrap().name, "user");
    assert_eq!(page.content.as_deref(), Some("`Mods: HD`"));
    assert!(!page.defer);
    assert!(page.embed.fields.is_empty());
    let again = list.build_page();
    assert_eq!(again.embed.description.unwrap(), description);
}

#[test]
fn empty_list_shows_an_empty_page() {
    let mut list = list(0, None);
    let page = list.build_page();
    assert_eq!(page.embed.description.as_deref(), Some(""));
    assert_eq!(page.embed.footer.unwrap().text, "Page 1/1");
    assert!(list.build_components().is_empty());
    list.handle_component(&click(Some(1), "pagination_end"));
    assert_eq!(list.pages().index(), 0);
}

#[test]
fn strangers_do_not_turn_pages() {
    let mut list = list(12, None);
    assert!(matches!(
        list.handle_component(&click(Some(2), "pagination_step")),
        ComponentResult::Ignore
    ));
    assert!(matches!(
        list.handle_component(&click(None, "pagination_step")),
        ComponentResult::Error(ComponentError::MissingUser)
    ));
    assert_eq!(list.handle_modal(&form(Some(2), Some("2"))), Ok(ModalOutcome::NotOwner));
    assert_eq!(list.handle_modal(&form(None, Some("2"))), Err(ModalError::MissingUser));
    assert_eq!(list.pages().curr_page(), 1);
    assert_eq!(list.msg_owner(), 1);
}

#[test]
fn controls_turn_the_pages() {
    let mut pages = Pages::new(5, 23);
    let mut press = |id: &str, pages: &mut Pages| {
        assert!(matches!(
            handle_pagination_component(&click(Some(1), id), 1, pages),
            ComponentResult::BuildPage
        ));
        pages.curr_page()
    };
    assert_eq!(press("pagination_end", &mut pages), 5);
    assert_eq!(press("pagination_back", &mut pages), 4);
    assert_eq!(press("pagination_start", &mut pages), 1);
    assert_eq!(press("pagination_back", &mut pages), 1);
    assert_eq!(press("pagination_step", &mut pages), 2);
    assert!(matches!(
        handle_pagination_component(&click(Some(1), "pagination_unknown"), 1, &mut pages),
        ComponentResult::Ignore
    ));
    assert_eq!(pages.curr_page(), 2);
}

#[test]
fn jump_control_opens_a_form() {
    let mut pages = Pages::new(5, 23);
    match handle_pagination_component(&click(Some(1), "pagination_custom"), 1, &mut pages) {
        ComponentResult::CreateModal(form) => {
            assert_eq!(form.custom_id, "pagination_page");
            assert_eq!(form.title, "Jump to a page");
            assert_eq!(form.inputs.len(), 1);
            assert_eq!(form.inputs[0].custom_id, "page_input");
            assert_eq!(form.inputs[0].label, "Page number");
            assert_eq!(form.inputs[0].placeholder, "Number between 1 and 5");
        }
        other => panic!("{other:?}"),
    }
    assert_eq!(pages.curr_page(), 1);
}

#[test]
fn jump_form_goes_to_the_page() {
    let mut pages = Pages::new(5, 23);
    assert_eq!(handle_pagination_modal(&form(Some(1), Some("4")), 1, &mut pages), Ok(ModalOutcome::Acknowledge));
    assert_eq!(pages.curr_page(), 4);
    assert_eq!(handle_pagination_modal(&form(Some(1), Some("99")), 1, &mut pages), Ok(ModalOutcome::Acknowledge));
    assert_eq!(pages.curr_page(), 5);
    assert_eq!(handle_pagination_modal(&form(Some(1), Some("0")), 1, &mut pages), Ok(ModalOutcome::Acknowledge));
    assert_eq!(pages.curr_page(), 1);
    pages.jump(3);
    for value in [Some("three"), Some(""), None, Some("-1"), Some("2.5")] {
        assert_eq!(handle_pagination_modal(&form(Some(1), value), 1, &mut pages), Ok(ModalOutcome::Rejected));
        assert_eq!(pages.curr_page(), 3);
    }
    let mut other = form(Some(1), Some("2"));
    other.custom_id = "something".to_owned();
    assert_eq!(handle_pagination_modal(&other, 1, &mut pages), Ok(ModalOutcome::Acknowledge));
    assert_eq!(pages.curr_page(), 3);
    other.rows.clear();
    assert_eq!(handle_pagination_modal(&other, 1, &mut pages), Err(ModalError::MissingInput));
}

#[test]
fn buttons_are_disabled_at_the_ends() {
    let flags = |pages: &Pages| -> Vec<bool> {
        match &pagination_components(pages)[0] {
            ControlRow::Buttons(buttons) => buttons.iter().map(|b| b.disabled).collect(),
            other => panic!("{other:?}"),
        }
    };
    let mut pages = Pages::new(5, 12);
    assert_eq!(flags(&pages), [true, true, false, false, false]);
    pages.next_page();
    assert_eq!(flags(&pages), [false, false, false, false, false]);
    pages.next_page();
    assert_eq!(flags(&pages), [false, false, false, true, true]);
    assert!(pagination_components(&Pages::new(5, 5)).is_empty());
}
