//! The borrowing person record.
//!
//! A [`PrimitivePerson`] owns nothing: its name is text borrowed from
//! elsewhere. Copying one is therefore a plain copy of its three fields, and
//! two of them are equal when all three fields are, the names by content.

use crate::text::same_text;
use vstd::prelude::*;
use vstd::std_specs::cmp::PartialEqSpecImpl;

verus! {

/// A person described by borrowed text and two numbers.
#[derive(Clone, Copy, Debug)]
pub struct PrimitivePerson<'a> {
    name: &'a str,
    age: i32,
    height: u16,
}

/// The mathematical value of a [`PrimitivePerson`].
pub struct PrimitivePersonView {
    pub name: Seq<char>,
    pub age: int,
    pub height: nat,
}

impl<'a> View for PrimitivePerson<'a> {
    type V = PrimitivePersonView;

    closed spec fn view(&self) -> PrimitivePersonView {
        PrimitivePersonView {
            name: self.name@,
            age: self.age as int,
            height: self.height as nat,
        }
    }
}

impl<'a> Default for PrimitivePerson<'a> {
    /// The record named "Something", of age and height 0.
    fn default() -> (person: Self)
        ensures
            person@ == (PrimitivePersonView { name: "Something"@, age: 0, height: 0 }),
    {
        Self { name: "Something", age: 0, height: 0 }
    }
}

impl<'a> PartialEq for PrimitivePerson<'a> {
    /// Whether the two records agree in every field, the names by content.
    fn eq(&self, other: &Self) -> (same: bool)
        ensures
            same == (self@ == other@),
    {
        same_text(self.name, other.name) && self.age == other.age && self.height == other.height
    }
}

impl<'a> PartialEqSpecImpl for PrimitivePerson<'a> {
    open spec fn obeys_eq_spec() -> bool {
        true
    }

    open spec fn eq_spec(&self, other: &Self) -> bool {
        self@ == other@
    }
}

impl<'a> Eq for PrimitivePerson<'a> {}

} // verus!
