//! The owning person record.
//!
//! A [`Person`] is identified by its `uid` alone. Equality and order look at
//! nothing else, so two records with different names but one `uid` are equal,
//! and a record sorts before another exactly when its `uid` is smaller.
//!
//! Copying a person does not copy the identity: [`Clone::clone`] hands back
//! the details under the blank `uid` 0, and [`Clone::clone_from`] refreshes
//! the details of a record while its own `uid` stays.

use std::cmp::Ordering;
use vstd::prelude::*;
use vstd::std_specs::cmp::PartialEqSpecImpl;
use vstd::std_specs::cmp::PartialOrdSpecImpl;

verus! {

/// A person: an identifier, and the details that describe them.
#[derive(Debug)]
pub struct Person {
    pub uid: u64,
    pub name: String,
    pub age: u16,
    pub height: u16,
}

/// The mathematical value of a [`Person`].
pub struct PersonView {
    pub uid: nat,
    pub name: Seq<char>,
    pub age: nat,
    pub height: nat,
}

impl PersonView {
    /// Whether both values stand for one person: their `uid`s agree.
    pub open spec fn same_person(self, other: PersonView) -> bool {
        self.uid == other.uid
    }

    /// Where `self` stands relative to `other` in the order by ascending `uid`.
    pub open spec fn order(self, other: PersonView) -> Ordering {
        if self.uid < other.uid {
            Ordering::Less
        } else if self.uid == other.uid {
            Ordering::Equal
        } else {
            Ordering::Greater
        }
    }

    /// The copy of this value: the same details under the blank `uid` 0.
    pub open spec fn duplicate(self) -> PersonView {
        PersonView { uid: 0, name: self.name, age: self.age, height: self.height }
    }

    /// This value after it took its details from `source`: the `uid` is its
    /// own, the rest is `source`'s.
    pub open spec fn refreshed_from(self, source: PersonView) -> PersonView {
        PersonView { uid: self.uid, name: source.name, age: source.age, height: source.height }
    }
}

impl View for Person {
    type V = PersonView;

    open spec fn view(&self) -> PersonView {
        PersonView {
            uid: self.uid as nat,
            name: self.name@,
            age: self.age as nat,
            height: self.height as nat,
        }
    }
}

impl Person {
    /// Makes a record of exactly the given fields. Nothing is validated.
    pub fn build(uid: u64, name: String, age: u16, height: u16) -> (person: Self)
        ensures
            person == (Person { uid, name, age, height }),
    {
        Self { uid, name, age, height }
    }

    /// Compares two records by `uid`, the smaller first.
    pub fn cmp(&self, other: &Self) -> (order: Ordering)
        ensures
            order == self@.order(other@),
    {
        self.uid.cmp(&other.uid)
    }

    /// The record that compares as greater; `other` where the two compare as
    /// equal.
    pub fn max(self, other: Self) -> (greater: Self)
        ensures
            greater == if self@.order(other@) == Ordering::Greater { self } else { other },
            greater.uid >= self.uid,
            greater.uid >= other.uid,
    {
        match self.cmp(&other) {
            Ordering::Greater => self,
            _ => other,
        }
    }

    /// The record that compares as less; `self` where the two compare as
    /// equal.
    pub fn min(self, other: Self) -> (lesser: Self)
        ensures
            lesser == if self@.order(other@) == Ordering::Greater { other } else { self },
            lesser.uid <= self.uid,
            lesser.uid <= other.uid,
    {
        match self.cmp(&other) {
            Ordering::Greater => other,
            _ => self,
        }
    }
}

impl Default for Person {
    /// The blank record: `uid` 0, an empty name, age and height 0.
    fn default() -> (person: Self)
        ensures
            person@ == (PersonView { uid: 0, name: Seq::empty(), age: 0, height: 0 }),
    {
        Self { uid: 0, name: String::new(), age: 0, height: 0 }
    }
}

impl Clone for Person {
    /// Copies the details into a new record. The copy does not inherit the
    /// identity: its `uid` is 0.
    fn clone(&self) -> (copy: Self)
        ensures
            copy@ == self@.duplicate(),
    {
        Self { uid: 0, name: self.name.clone(), age: self.age, height: self.height }
    }

    /// Overwrites `name`, `age` and `height` with `source`'s and leaves `uid`
    /// as it is.
    fn clone_from(&mut self, source: &Self)
        ensures
            final(self)@ == old(self)@.refreshed_from(source@),
    {
        self.name = source.name.clone();
        self.age = source.age;
        self.height = source.height;
    }
}

impl PartialEq for Person {
    /// Whether both records stand for one person: their `uid`s agree.
    fn eq(&self, other: &Self) -> (same: bool)
        ensures
            same == (self.uid == other.uid),
    {
        self.uid == other.uid
    }

    /// Whether the records stand for different persons: their `uid`s differ.
    fn ne(&self, other: &Self) -> (differ: bool)
        ensures
            differ == (self.uid != other.uid),
    {
        self.uid != other.uid
    }
}

impl PartialEqSpecImpl for Person {
    open spec fn obeys_eq_spec() -> bool {
        true
    }

    open spec fn eq_spec(&self, other: &Self) -> bool {
        self@.same_person(other@)
    }
}

impl Eq for Person {}

impl PartialOrd for Person {
    /// Compares two records by `uid`. Any two records can be compared, so the
    /// result is never `None`.
    fn partial_cmp(&self, other: &Self) -> (order: Option<Ordering>)
        ensures
            order == Some(self@.order(other@)),
    {
        Some(self.uid.cmp(&other.uid))
    }
}

impl PartialOrdSpecImpl for Person {
    open spec fn obeys_partial_cmp_spec() -> bool {
        true
    }

    open spec fn partial_cmp_spec(&self, other: &Self) -> Option<Ordering> {
        Some(self@.order(other@))
    }
}

} // verus!
