use bathbot::pages::{PageStep, Pages};

#[test]
fn twelve_entries_in_pages_of_five() {
    let mut pages = Pages::new(5, 12);
    assert_eq!(pages.curr_page(), 1);
    assert_eq!(pages.last_page(), 3);
    pages.next_page();
    pages.next_page();
    assert_eq!(pages.curr_page(), 3);
    pages.next_page();
    assert_eq!(pages.curr_page(), 3);
    assert_eq!(pages.index(), 10);
}

#[test]
fn index_stays_on_an_entry() {
    let steps = [
        PageStep::Next,
        PageStep::Jump(9),
        PageStep::Next,
        PageStep::Prev,
        PageStep::Jump(0),
        PageStep::Prev,
        PageStep::Last,
        PageStep::Next,
        PageStep::First,
        PageStep::Jump(usize::MAX),
    ];
    for total in 0..30usize {
        for per_page in 1..8usize {
            let mut pages = Pages::new(per_page, total);
            for step in steps {
                pages.step(step);
                if total == 0 {
                    assert_eq!(pages.index(), 0);
                } else {
                    assert!(pages.index() < total);
                }
                assert_eq!(pages.index() % per_page, 0);
            }
        }
    }
}

#[test]
fn jump_clamps_to_the_pages() {
    let mut pages = Pages::new(5, 12);
    pages.jump(2);
    assert_eq!(pages.curr_page(), 2);
    assert_eq!(pages.index(), 5);
    pages.jump(0);
    assert_eq!(pages.curr_page(), 1);
    pages.jump(40);
    assert_eq!(pages.curr_page(), 3);
    pages.jump(usize::MAX);
    assert_eq!(pages.curr_page(), 3);
    pages.jump(1);
    assert_eq!(pages.index(), 0);
}

#[test]
fn empty_list_has_one_page() {
    let mut pages = Pages::new(5, 0);
    assert_eq!(pages.curr_page(), 1);
    assert_eq!(pages.last_page(), 1);
    assert_eq!(pages.last_index(), 0);
    pages.next_page();
    pages.final_page();
    pages.jump(7);
    assert_eq!(pages.index(), 0);
    assert_eq!(pages.total(), 0);
}

#[test]
fn full_last_page_is_the_last() {
    let mut pages = Pages::new(5, 10);
    assert_eq!(pages.last_page(), 2);
    assert_eq!(pages.last_index(), 5);
    pages.final_page();
    assert_eq!(pages.index(), 5);
    pages.next_page();
    assert_eq!(pages.index(), 5);
    pages.prev_page();
    assert_eq!(pages.index(), 0);
    pages.prev_page();
    assert_eq!(pages.index(), 0);
    pages.first_page();
    assert_eq!(pages.per_page(), 5);
}

#[test]
fn huge_page_size_does_not_overflow() {
    let mut pages = Pages::new(usize::MAX, usize::MAX);
    assert_eq!(pages.last_page(), 1);
    pages.next_page();
    assert_eq!(pages.index(), 0);
    let mut ones = Pages::new(1, usize::MAX);
    assert_eq!(ones.last_page(), usize::MAX);
    ones.final_page();
    assert_eq!(ones.index(), usize::MAX - 1);
    ones.next_page();
    assert_eq!(ones.curr_page(), usize::MAX);
}
