//! The registry of the messages that are alive: it hands each click and
//! each form to the message that it belongs to, to one handler at a time.

use crate::active::{ComponentResult, ModalError, ModalOutcome};
use crate::active_message::{ActiveMessage, ActiveView, PageValues};
use crate::embed::{row_views, BuildPage, ControlRow, RenderError};
use crate::interaction::{ComponentEvent, ModalEvent};
use rosu_v2::model::mods::GameModsIntermode;
use vstd::prelude::*;

verus! {

/// A registered message.
pub struct Entry {
    pub id: u64,
    /// Whether a page of the message has been built since it was registered.
    pub rendered: bool,
    /// The message; nothing while a handler has it.
    pub message: Option<ActiveMessage>,
}

/// The mathematical model of a registered message.
pub struct EntryView {
    pub rendered: bool,
    /// The message; nothing while a handler has it.
    pub message: Option<ActiveView>,
}

impl View for Entry {
    type V = EntryView;

    open spec fn view(&self) -> EntryView {
        EntryView {
            rendered: self.rendered,
            message: match self.message {
                Some(m) => Some(m@),
                None => None,
            },
        }
    }
}

impl EntryView {
    pub open spec fn with_message(self, message: Option<ActiveView>) -> EntryView {
        EntryView { message, ..self }
    }
}

/// What became of an event: there is no message for it, or the message is
/// with another handler, or the message took it and answered.
#[derive(Debug)]
pub enum Routed<T> {
    Unknown,
    Busy,
    Done(T),
}

/// No two entries have the same id.
pub open spec fn distinct_ids(entries: Seq<Entry>) -> bool {
    forall|i: int, j: int|
        0 <= i < entries.len() && 0 <= j < entries.len() && i != j ==> (#[trigger] entries[i]).id
            != (#[trigger] entries[j]).id
}

/// Whether `entries[i]` is the entry of `id`.
pub open spec fn is_at(entries: Seq<Entry>, id: u64, i: int) -> bool {
    0 <= i < entries.len() && entries[i].id == id
}

/// The messages by their ids.
pub open spec fn by_id(entries: Seq<Entry>) -> Map<u64, EntryView> {
    Map::new(
        |id: u64| exists|i: int| is_at(entries, id, i),
        |id: u64| entries[choose|i: int| is_at(entries, id, i)]@,
    )
}

/// Among distinct ids, the entry at a place is the one that its id leads
/// to.
pub proof fn lemma_by_id(entries: Seq<Entry>, i: int)
    requires
        distinct_ids(entries),
        0 <= i < entries.len(),
    ensures
        by_id(entries).dom().contains(entries[i].id),
        by_id(entries)[entries[i].id] == entries[i]@,
{
    let id = entries[i].id;
    assert(is_at(entries, id, i));
    let k = choose|k: int| is_at(entries, id, k);
    assert(k == i);
}

/// The message under `id` that is free to take an event.
pub open spec fn idle(messages: Map<u64, EntryView>, id: u64) -> Option<ActiveView> {
    if messages.dom().contains(id) {
        messages[id].message
    } else {
        None
    }
}

/// Whether the message under `id` is with a handler.
pub open spec fn busy(messages: Map<u64, EntryView>, id: u64) -> bool {
    messages.dom().contains(id) && messages[id].message is None
}

/// The messages with the one under `id` changed into `message`.
pub open spec fn with_message(messages: Map<u64, EntryView>, id: u64, message: ActiveView) -> Map<
    u64,
    EntryView,
> {
    messages.insert(id, messages[id].with_message(Some(message)))
}

pub struct Registry {
    entries: Vec<Entry>,
}

impl View for Registry {
    type V = Map<u64, EntryView>;

    closed spec fn view(&self) -> Map<u64, EntryView> {
        by_id(self.entries@)
    }
}

impl Registry {
    #[verifier::type_invariant]
    spec fn inv(self) -> bool {
        distinct_ids(self.entries@)
    }

    /// A registry without messages.
    pub fn new() -> (registry: Self)
        ensures
            registry@ == Map::<u64, EntryView>::empty(),
    {
        let registry = Registry { entries: Vec::new() };
        assert(registry@ =~= Map::<u64, EntryView>::empty());
        registry
    }

    fn find(&self, id: u64) -> (found: Option<usize>)
        ensures
            found.is_some() == self@.dom().contains(id),
            found matches Some(i) ==> is_at(self.entries@, id, i as int) && self@[id]
                == self.entries@[i as int]@,
            found is None ==> forall|i: int| !is_at(self.entries@, id, i),
    {
        proof {
            use_type_invariant(self);
        }
        let mut i: usize = 0;
        while i < self.entries.len()
            invariant
                i <= self.entries@.len(),
                distinct_ids(self.entries@),
                forall|j: int| 0 <= j < i ==> !is_at(self.entries@, id, j),
            decreases self.entries.len() - i,
        {
            if self.entries[i].id == id {
                proof {
                    lemma_by_id(self.entries@, i as int);
                }
                return Some(i);
            }
            i = i + 1;
        }
        None
    }

    /// Whether a message is registered under `id`.
    pub fn contains(&self, id: u64) -> (known: bool)
        ensures
            known == self@.dom().contains(id),
    {
        self.find(id).is_some()
    }

    /// Whether a page of the message under `id` has been built since it
    /// was registered; nothing where no message is registered there.
    pub fn is_rendered(&self, id: u64) -> (rendered: Option<bool>)
        ensures
            rendered.is_some() == self@.dom().contains(id),
            rendered.is_some() ==> rendered.unwrap() == self@[id].rendered,
    {
        match self.find(id) {
            Some(i) => Some(self.entries[i].rendered),
            None => None,
        }
    }

    /// Whether the message under `id` is with a handler.
    pub fn is_busy(&self, id: u64) -> (with_handler: bool)
        ensures
            with_handler == busy(self@, id),
    {
        match self.find(id) {
            Some(i) => self.entries[i].message.is_none(),
            None => false,
        }
    }

    /// The number of registered messages.
    pub fn len(&self) -> (len: usize)
        ensures
            len == self@.dom().len(),
            self@.dom().finite(),
    {
        proof {
            use_type_invariant(self);
            lemma_count(self.entries@);
        }
        self.entries.len()
    }

    fn put(&mut self, found: Option<usize>, entry: Entry)
        requires
            found.is_some() == old(self)@.dom().contains(entry.id),
            found matches Some(i) ==> is_at(old(self).entries@, entry.id, i as int),
        ensures
            final(self)@ == old(self)@.insert(entry.id, entry@),
    {
        let mut entries: Vec<Entry> = Vec::new();
        proof {
            use_type_invariant(&*self);
        }
        std::mem::swap(&mut self.entries, &mut entries);
        let ghost before = entries@;
        let ghost id = entry.id;
        let ghost model = entry@;
        match found {
            Some(i) => {
                entries.set(i, entry);
            },
            None => {
                proof {
                    assert forall|i: int| !is_at(before, id, i) by {
                        if is_at(before, id, i) {
                            lemma_by_id(before, i);
                        }
                    }
                }
                entries.push(entry);
            },
        }
        proof {
            lemma_put(before, entries@, id, model);
        }
        self.entries = entries;
    }

    /// Registers a message under `id`, in place of what was registered
    /// there. No page of it has been built yet, and no handler has it.
    pub fn register(&mut self, id: u64, message: ActiveMessage)
        ensures
            final(self)@ == old(self)@.insert(
                id,
                EntryView { rendered: false, message: Some(message@) },
            ),
    {
        let found = self.find(id);
        self.put(found, Entry { id, rendered: false, message: Some(message) });
    }

    /// Takes the entry under `id` out of the registry, where there is one:
    /// the message has expired, or was deleted. The message comes back
    /// unless a handler has it; when that handler is through, the message
    /// is dropped.
    pub fn remove(&mut self, id: u64) -> (message: Option<ActiveMessage>)
        ensures
            final(self)@ == old(self)@.remove(id),
            message.is_some() == idle(old(self)@, id).is_some(),
            message.is_some() ==> message.unwrap()@ == idle(old(self)@, id).unwrap(),
    {
        let found = self.find(id);
        proof {
            use_type_invariant(&*self);
        }
        match found {
            Some(i) => {
                let mut entries: Vec<Entry> = Vec::new();
                std::mem::swap(&mut self.entries, &mut entries);
                let ghost before = entries@;
                let entry = entries.remove(i);
                proof {
                    assert forall|a: int, b: int|
                        0 <= a < entries@.len() && 0 <= b < entries@.len() && a != b implies (
                    #[trigger] entries@[a]).id != (#[trigger] entries@[b]).id by {
                        let a0 = if a < i { a } else { a + 1 };
                        let b0 = if b < i { b } else { b + 1 };
                        assert(entries@[a] == before[a0] && entries@[b] == before[b0]);
                    }
                    assert forall|k: u64| #[trigger]
                        by_id(entries@).dom().contains(k) == by_id(before).remove(
                            id,
                        ).dom().contains(k) by {
                        if by_id(entries@).dom().contains(k) {
                            let a = choose|a: int| is_at(entries@, k, a);
                            let a0 = if a < i { a } else { a + 1 };
                            assert(is_at(before, k, a0));
                        }
                        if by_id(before).remove(id).dom().contains(k) {
                            let a0 = choose|a: int| is_at(before, k, a);
                            let a = if a0 < i { a0 } else { a0 - 1 };
                            assert(is_at(entries@, k, a));
                        }
                    }
                    assert forall|k: u64| #[trigger]
                        by_id(entries@).dom().contains(k) implies by_id(entries@)[k] == by_id(
                        before,
                    ).remove(id)[k] by {
                        let a = choose|a: int| is_at(entries@, k, a);
                        let a0 = if a < i { a } else { a + 1 };
                        lemma_by_id(entries@, a);
                        lemma_by_id(before, a0);
                    }
                    assert(by_id(entries@) =~= by_id(before).remove(id));
                }
                self.entries = entries;
                entry.message
            },
            None => {
                assert(self@ =~= self@.remove(id));
                None
            },
        }
    }

    fn take(&mut self, id: u64) -> (taken: Routed<(bool, ActiveMessage)>)
        ensures
            match taken {
                Routed::Unknown => !old(self)@.dom().contains(id) && final(self)@ == old(self)@,
                Routed::Busy => busy(old(self)@, id) && final(self)@ == old(self)@,
                Routed::Done((rendered, message)) => {
                    &&& idle(old(self)@, id) == Some(message@)
                    &&& rendered == old(self)@[id].rendered
                    &&& final(self)@ == old(self)@.insert(id, old(self)@[id].with_message(None))
                },
            },
    {
        let found = self.find(id);
        proof {
            use_type_invariant(&*self);
        }
        match found {
            Some(i) => {
                if self.entries[i].message.is_none() {
                    return Routed::Busy;
                }
                let mut entries: Vec<Entry> = Vec::new();
                std::mem::swap(&mut self.entries, &mut entries);
                let ghost before = entries@;
                let entry = entries.remove(i);
                let rendered = entry.rendered;
                let hollow = Entry { id, rendered, message: None };
                entries.insert(i, hollow);
                proof {
                    assert(entries@ =~= before.update(i as int, hollow));
                    lemma_put(before, entries@, id, hollow@);
                }
                self.entries = entries;
                match entry.message {
                    Some(message) => Routed::Done((rendered, message)),
                    None => Routed::Busy,
                }
            },
            None => Routed::Unknown,
        }
    }

    fn give(&mut self, id: u64, rendered: bool, message: ActiveMessage) -> (given: bool)
        ensures
            given == busy(old(self)@, id),
            given ==> final(self)@ == old(self)@.insert(
                id,
                EntryView { rendered, message: Some(message@) },
            ),
            !given ==> final(self)@ == old(self)@,
    {
        let found = self.find(id);
        match found {
            Some(i) => {
                if self.entries[i].message.is_some() {
                    return false;
                }
                self.put(found, Entry { id, rendered, message: Some(message) });
                true
            },
            None => false,
        }
    }

    /// Hands the message under `id` to a handler. Until the handler gives
    /// it back with [`Self::finish`], every other event for the message
    /// finds it busy; events for other messages go their way.
    pub fn begin(&mut self, id: u64) -> (taken: Routed<ActiveMessage>)
        ensures
            match taken {
                Routed::Unknown => !old(self)@.dom().contains(id) && final(self)@ == old(self)@,
                Routed::Busy => busy(old(self)@, id) && final(self)@ == old(self)@,
                Routed::Done(message) => {
                    &&& idle(old(self)@, id) == Some(message@)
                    &&& final(self)@ == old(self)@.insert(id, old(self)@[id].with_message(None))
                    &&& busy(final(self)@, id)
                },
            },
    {
        match self.take(id) {
            Routed::Unknown => Routed::Unknown,
            Routed::Busy => Routed::Busy,
            Routed::Done((_, message)) => Routed::Done(message),
        }
    }

    /// Takes a message back from its handler. Where the entry is gone
    /// meanwhile, or holds another message, the message is dropped.
    pub fn finish(&mut self, id: u64, message: ActiveMessage) -> (kept: bool)
        ensures
            kept == busy(old(self)@, id),
            kept ==> final(self)@ == with_message(old(self)@, id, message@),
            !kept ==> final(self)@ == old(self)@,
    {
        match self.is_rendered(id) {
            Some(rendered) => self.give(id, rendered, message),
            None => false,
        }
    }

    /// Takes a message back from a handler that has built a page of it.
    /// Where the entry is gone meanwhile, or holds another message, the
    /// message is dropped.
    pub fn finish_built(&mut self, id: u64, message: ActiveMessage) -> (kept: bool)
        ensures
            kept == busy(old(self)@, id),
            kept ==> final(self)@ == old(self)@.insert(
                id,
                EntryView { rendered: true, message: Some(message@) },
            ),
            !kept ==> final(self)@ == old(self)@,
    {
        self.give(id, true, message)
    }

    /// Hands a click to the message that it belongs to. A click for a
    /// message that is not registered, or that is with a handler, is
    /// dropped.
    pub fn route_component(&mut self, id: u64, component: &ComponentEvent) -> (result: Routed<
        ComponentResult,
    >)
        ensures
            match result {
                Routed::Unknown => !old(self)@.dom().contains(id) && final(self)@ == old(self)@,
                Routed::Busy => busy(old(self)@, id) && final(self)@ == old(self)@,
                Routed::Done(answer) => idle(old(self)@, id) matches Some(message) && {
                    &&& answer@ == message.on_component(*component).1
                    &&& final(self)@ == with_message(
                        old(self)@,
                        id,
                        message.on_component(*component).0,
                    )
                },
            },
    {
        match self.take(id) {
            Routed::Unknown => Routed::Unknown,
            Routed::Busy => Routed::Busy,
            Routed::Done((rendered, mut message)) => {
                let answer = message.handle_component(component);
                self.give(id, rendered, message);
                assert(self@ =~= with_message(
                    old(self)@,
                    id,
                    old(self)@[id].message.unwrap().on_component(*component).0,
                ));
                Routed::Done(answer)
            },
        }
    }

    /// Hands the outcome of an acknowledgment to the message that asked
    /// for it.
    pub fn complete_defer(&mut self, id: u64, token: usize, acknowledged: bool) -> (result: Routed<
        ComponentResult,
    >)
        ensures
            match result {
                Routed::Unknown => !old(self)@.dom().contains(id) && final(self)@ == old(self)@,
                Routed::Busy => busy(old(self)@, id) && final(self)@ == old(self)@,
                Routed::Done(answer) => idle(old(self)@, id) matches Some(message) && {
                    &&& answer@ == message.after_defer(token, acknowledged).1
                    &&& final(self)@ == with_message(
                        old(self)@,
                        id,
                        message.after_defer(token, acknowledged).0,
                    )
                },
            },
    {
        match self.take(id) {
            Routed::Unknown => Routed::Unknown,
            Routed::Busy => Routed::Busy,
            Routed::Done((rendered, mut message)) => {
                let answer = message.complete_defer(token, acknowledged);
                self.give(id, rendered, message);
                assert(self@ =~= with_message(
                    old(self)@,
                    id,
                    old(self)@[id].message.unwrap().after_defer(token, acknowledged).0,
                ));
                Routed::Done(answer)
            },
        }
    }

    /// Hands a submitted form to the message that it belongs to. A form
    /// for a message that is not registered, or that is with a handler, is
    /// dropped.
    pub fn route_modal(&mut self, id: u64, modal: &ModalEvent) -> (result: Routed<
        Result<ModalOutcome, ModalError>,
    >)
        ensures
            match result {
                Routed::Unknown => !old(self)@.dom().contains(id) && final(self)@ == old(self)@,
                Routed::Busy => busy(old(self)@, id) && final(self)@ == old(self)@,
                Routed::Done(outcome) => idle(old(self)@, id) is Some && exists|
                    parsed: Option<GameModsIntermode>,
                |
                    {
                        &&& outcome == (#[trigger] idle(old(self)@, id).unwrap().on_modal(
                            *modal,
                            parsed,
                        )).1
                        &&& final(self)@ == with_message(
                            old(self)@,
                            id,
                            idle(old(self)@, id).unwrap().on_modal(*modal, parsed).0,
                        )
                    },
            },
    {
        match self.take(id) {
            Routed::Unknown => Routed::Unknown,
            Routed::Busy => Routed::Busy,
            Routed::Done((rendered, mut message)) => {
                let ghost before = message@;
                let outcome = message.handle_modal(modal);
                self.give(id, rendered, message);
                proof {
                    let parsed = choose|parsed: Option<GameModsIntermode>|
                        (message@, outcome) == #[trigger] before.on_modal(*modal, parsed);
                    assert(self@ =~= with_message(
                        old(self)@,
                        id,
                        before.on_modal(*modal, parsed).0,
                    ));
                    assert(outcome == idle(old(self)@, id).unwrap().on_modal(*modal, parsed).1);
                }
                Routed::Done(outcome)
            },
        }
    }

    /// Builds the page and the controls of the message under `id`.
    pub fn build(&mut self, id: u64, values: &PageValues) -> (result: Routed<
        (Result<BuildPage, RenderError>, Vec<ControlRow>),
    >)
        ensures
            match result {
                Routed::Unknown => !old(self)@.dom().contains(id) && final(self)@ == old(self)@,
                Routed::Busy => busy(old(self)@, id) && final(self)@ == old(self)@,
                Routed::Done((page, rows)) => idle(old(self)@, id) matches Some(message) && {
                    &&& page.is_ok() == message.page(*values).is_ok()
                    &&& page.is_ok() ==> page.unwrap()@ == message.page(*values).unwrap()
                    &&& page is Err ==> page->Err_0 == message.page(*values)->Err_0
                    &&& row_views(rows@) == message.after_page(*values).controls()
                    &&& final(self)@ == old(self)@.insert(
                        id,
                        EntryView { rendered: true, message: Some(message.after_page(*values)) },
                    )
                },
            },
    {
        match self.take(id) {
            Routed::Unknown => Routed::Unknown,
            Routed::Busy => Routed::Busy,
            Routed::Done((_, mut message)) => {
                let page = message.build_page(values);
                let rows = message.build_components();
                self.give(id, true, message);
                assert(self@ =~= old(self)@.insert(
                    id,
                    EntryView {
                        rendered: true,
                        message: Some(old(self)@[id].message.unwrap().after_page(*values)),
                    },
                ));
                Routed::Done((page, rows))
            },
        }
    }
}

/// While a handler has a message, every event for that message is turned
/// away and changes nothing: no second handler gets the message before the
/// first gives it back.
pub proof fn lemma_one_handler_at_a_time(messages: Map<u64, EntryView>, id: u64)
    requires
        busy(messages, id),
    ensures
        idle(messages, id) is None,
        forall|message: ActiveView| #[trigger] busy(with_message(messages, id, message), id) == false,
        forall|other: u64, message: ActiveView|
            other != id ==> #[trigger] idle(with_message(messages, id, message), other) == idle(
                messages,
                other,
            ),
{
}

/// Putting an entry in the place of the one with its id, or behind all
/// others where no entry has its id, keeps the ids distinct and changes
/// only what that id leads to.
pub proof fn lemma_put(before: Seq<Entry>, after: Seq<Entry>, id: u64, entry: EntryView)
    requires
        distinct_ids(before),
        ({
            ||| exists|i: int|
                is_at(before, id, i) && after.len() == before.len() && is_at(after, id, i)
                    && after[i]@ == entry && forall|j: int|
                    0 <= j < before.len() && j != i ==> after[j] == before[j]
            ||| (forall|i: int| !is_at(before, id, i)) && after.len() == before.len() + 1
                && is_at(after, id, before.len() as int) && after[before.len() as int]@ == entry
                && forall|j: int| 0 <= j < before.len() ==> after[j] == before[j]
        }),
    ensures
        distinct_ids(after),
        by_id(after) == by_id(before).insert(id, entry),
{
    let place = if exists|i: int| is_at(before, id, i) {
        choose|i: int| is_at(before, id, i)
    } else {
        before.len() as int
    };
    assert(is_at(after, id, place) && after[place]@ == entry);
    assert forall|j: int| 0 <= j < before.len() && j != place implies after[j] == before[j] by {}
    assert forall|a: int, b: int|
        0 <= a < after.len() && 0 <= b < after.len() && a != b implies (#[trigger] after[a]).id != (
    #[trigger] after[b]).id by {
        if a != place && b != place {
            assert(after[a] == before[a] && after[b] == before[b]);
        } else if a == place {
            assert(after[b] == before[b]);
            assert(!is_at(before, id, b) || b == place);
        } else {
            assert(after[a] == before[a]);
            assert(!is_at(before, id, a) || a == place);
        }
    }
    assert forall|k: u64| #[trigger]
        by_id(after).dom().contains(k) == by_id(before).insert(id, entry).dom().contains(k) by {
        if by_id(after).dom().contains(k) && k != id {
            let a = choose|a: int| is_at(after, k, a);
            assert(a != place);
            assert(is_at(before, k, a));
        }
        if by_id(before).dom().contains(k) && k != id {
            let a = choose|a: int| is_at(before, k, a);
            assert(is_at(after, k, a));
        }
    }
    assert forall|k: u64| #[trigger] by_id(after).dom().contains(k) implies by_id(after)[k]
        == by_id(before).insert(id, entry)[k] by {
        let a = choose|a: int| is_at(after, k, a);
        lemma_by_id(after, a);
        if k != id {
            assert(a != place);
            assert(is_at(before, k, a));
            lemma_by_id(before, a);
        } else {
            lemma_by_id(after, place);
        }
    }
    assert(by_id(after) =~= by_id(before).insert(id, entry));
}

/// Among distinct ids there are as many messages as entries.
pub proof fn lemma_count(entries: Seq<Entry>)
    requires
        distinct_ids(entries),
    ensures
        by_id(entries).dom().finite(),
        by_id(entries).dom().len() == entries.len(),
    decreases entries.len(),
{
    if entries.len() == 0 {
        assert(by_id(entries).dom() =~= Set::<u64>::empty());
    } else {
        let rest = entries.drop_last();
        let last = entries.last();
        assert forall|i: int, j: int|
            0 <= i < rest.len() && 0 <= j < rest.len() && i != j implies (#[trigger] rest[i]).id != (
        #[trigger] rest[j]).id by {
            assert(rest[i] == entries[i] && rest[j] == entries[j]);
        }
        lemma_count(rest);
        assert forall|k: u64| #[trigger]
            by_id(entries).dom().contains(k) == by_id(rest).dom().insert(last.id).contains(k) by {
            if by_id(entries).dom().contains(k) && k != last.id {
                let a = choose|a: int| is_at(entries, k, a);
                assert(is_at(rest, k, a));
            }
            if by_id(rest).dom().contains(k) {
                let a = choose|a: int| is_at(rest, k, a);
                assert(is_at(entries, k, a));
            }
            if k == last.id {
                assert(is_at(entries, k, entries.len() - 1));
            }
        }
        assert(by_id(entries).dom() =~= by_id(rest).dom().insert(last.id));
        assert(!by_id(rest).dom().contains(last.id)) by {
            if by_id(rest).dom().contains(last.id) {
                let a = choose|a: int| is_at(rest, last.id, a);
                assert(entries[a].id == entries[entries.len() - 1].id);
            }
        }
    }
}

} // verus!
