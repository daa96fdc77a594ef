//! What the platform hands in when a user acts on a message: clicks and
//! submitted forms, and how their inputs are read.

use crate::text::{parse_u32, parse_unsigned, text_eq};
use vstd::prelude::*;

verus! {

/// A single-precision number, held by its bit pattern.
pub type SingleBits = u32;

/// A double-precision number, held by its bit pattern.
pub type DoubleBits = u64;

/// How a text reads as a decimal number, in both precisions.
#[derive(Clone, Copy, Debug, PartialEq, Eq)]
pub struct Decimal {
    pub single: SingleBits,
    pub double: DoubleBits,
}

/// A click on a button, or a choice in a menu.
#[derive(Debug)]
pub struct ComponentEvent {
    /// Who acted, where the platform says so.
    pub user: Option<u64>,
    pub custom_id: String,
    /// What was chosen, for a menu.
    pub values: Vec<String>,
}

/// One filled-in input of a submitted form.
#[derive(Debug)]
pub struct ModalField {
    pub custom_id: String,
    pub value: Option<String>,
    /// The value as a decimal number, where the caller could read it as one.
    pub number: Option<Decimal>,
}

/// One row of a submitted form.
#[derive(Debug)]
pub struct ModalRow {
    pub components: Vec<ModalField>,
}

/// A submitted form.
#[derive(Debug)]
pub struct ModalEvent {
    /// Who submitted, where the platform says so.
    pub user: Option<u64>,
    pub custom_id: String,
    pub rows: Vec<ModalRow>,
}

/// What a form input holds: nothing, a value, or text that is no value.
#[derive(Debug, PartialEq, Eq)]
pub enum FieldInput<T> {
    Absent,
    Valid(T),
    Invalid,
}

impl<T> FieldInput<T> {
    /// The stored value after this input: nothing clears it, a value
    /// replaces it, anything else leaves it alone.
    pub open spec fn apply(self, stored: Option<T>) -> Option<T> {
        match self {
            FieldInput::Absent => None,
            FieldInput::Valid(v) => Some(v),
            FieldInput::Invalid => stored,
        }
    }

    /// The value, where there is one.
    pub open spec fn value(self) -> Option<T> {
        match self {
            FieldInput::Valid(v) => Some(v),
            _ => None,
        }
    }
}

impl ModalField {
    /// The text of the input, where it holds any.
    pub open spec fn text(self) -> Option<Seq<char>> {
        match self.value {
            Some(v) => if v@.len() > 0 {
                Some(v@)
            } else {
                None
            },
            None => None,
        }
    }

    /// The input read as a whole number.
    pub open spec fn count(self) -> FieldInput<u32> {
        match self.text() {
            None => FieldInput::Absent,
            Some(t) => match parse_unsigned(t, u32::MAX as nat) {
                Some(n) => FieldInput::Valid(n as u32),
                None => FieldInput::Invalid,
            },
        }
    }

    /// The input read as a decimal number.
    pub open spec fn decimal(self) -> FieldInput<Decimal> {
        match self.text() {
            None => FieldInput::Absent,
            Some(_) => match self.number {
                Some(d) => FieldInput::Valid(d),
                None => FieldInput::Invalid,
            },
        }
    }

    /// The text of the input, where it holds any.
    pub fn read_text(&self) -> (text: Option<&String>)
        ensures
            text.is_some() == self.text().is_some(),
            text.is_some() ==> text.unwrap()@ == self.text().unwrap(),
    {
        match &self.value {
            Some(v) => {
                if v.as_str().unicode_len() > 0 {
                    Some(v)
                } else {
                    None
                }
            },
            None => None,
        }
    }

    /// Reads the input as a whole number.
    pub fn read_count(&self) -> (input: FieldInput<u32>)
        ensures
            input == self.count(),
    {
        match self.read_text() {
            None => FieldInput::Absent,
            Some(t) => match parse_u32(t.as_str()) {
                Some(n) => FieldInput::Valid(n),
                None => FieldInput::Invalid,
            },
        }
    }

    /// Reads the input as a decimal number.
    pub fn read_decimal(&self) -> (input: FieldInput<Decimal>)
        ensures
            input == self.decimal(),
    {
        match self.read_text() {
            None => FieldInput::Absent,
            Some(_) => match self.number {
                Some(d) => FieldInput::Valid(d),
                None => FieldInput::Invalid,
            },
        }
    }
}

impl ModalEvent {
    /// The first input of the first row.
    pub open spec fn first_field(self) -> Option<ModalField> {
        if self.rows@.len() > 0 && self.rows@[0].components@.len() > 0 {
            Some(self.rows@[0].components@[0])
        } else {
            None
        }
    }

    /// Whether row `i` starts with the input named `id`.
    pub open spec fn row_starts_with(self, i: int, id: Seq<char>) -> bool {
        &&& 0 <= i < self.rows@.len()
        &&& self.rows@[i].components@.len() > 0
        &&& self.rows@[i].components@[0].custom_id@ == id
    }

    /// The input named `id`: the first input of the first row that starts
    /// with an input of that name.
    pub open spec fn field(self, id: Seq<char>) -> Option<ModalField> {
        if exists|i: int| self.row_starts_with(i, id) {
            let i = choose|i: int|
                self.row_starts_with(i, id) && forall|j: int|
                    0 <= j < i ==> !self.row_starts_with(j, id);
            Some(self.rows@[i].components@[0])
        } else {
            None
        }
    }

    /// The decimal number in the input named `id`: nothing where there is
    /// no such input, where it is empty, or where it is no number.
    pub open spec fn attr(self, id: Seq<char>) -> FieldInput<Decimal> {
        match self.field(id) {
            Some(f) => f.decimal(),
            None => FieldInput::Absent,
        }
    }

    /// The first input of the first row.
    pub fn first_input(&self) -> (field: Option<&ModalField>)
        ensures
            field.is_some() == self.first_field().is_some(),
            field.is_some() ==> *field.unwrap() == self.first_field().unwrap(),
    {
        if self.rows.len() > 0 && self.rows[0].components.len() > 0 {
            Some(&self.rows[0].components[0])
        } else {
            None
        }
    }

    /// Finds the input named `id`.
    pub fn find_field(&self, id: &str) -> (field: Option<&ModalField>)
        ensures
            field.is_some() == self.field(id@).is_some(),
            field.is_some() ==> *field.unwrap() == self.field(id@).unwrap(),
    {
        let mut i: usize = 0;
        while i < self.rows.len()
            invariant
                i <= self.rows@.len(),
                forall|j: int| 0 <= j < i ==> !self.row_starts_with(j, id@),
            decreases self.rows.len() - i,
        {
            let row = &self.rows[i];
            if row.components.len() > 0 && text_eq(row.components[0].custom_id.as_str(), id) {
                assert(self.row_starts_with(i as int, id@));
                proof {
                    let k = choose|k: int|
                        self.row_starts_with(k, id@) && forall|j: int|
                            0 <= j < k ==> !self.row_starts_with(j, id@);
                    assert(k == i);
                }
                return Some(&row.components[0]);
            }
            i = i + 1;
        }
        None
    }

    /// Reads the input named `id` as a decimal number.
    pub fn read_attr(&self, id: &str) -> (input: FieldInput<Decimal>)
        ensures
            input == self.attr(id@),
    {
        match self.find_field(id) {
            Some(f) => f.read_decimal(),
            None => FieldInput::Absent,
        }
    }
}

/// The decimal number in the input named `component_id`, where the form has
/// such an input and it holds a number.
pub fn parse_attr(modal: &ModalEvent, component_id: &str) -> (value: Option<Decimal>)
    ensures
        value == modal.attr(component_id@).value(),
{
    match modal.read_attr(component_id) {
        FieldInput::Valid(d) => Some(d),
        _ => None,
    }
}

} // verus!
