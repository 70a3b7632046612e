//! What holds of sameness and order on persons.
//!
//! Both relations read the `uid` and nothing else. Sameness is therefore an
//! equivalence, the order is total, and the two agree: records are the same
//! person exactly when neither comes before the other.

use crate::person::Person;
use std::cmp::Ordering;
use vstd::prelude::*;
use vstd::std_specs::cmp::PartialEqSpec;
use vstd::std_specs::cmp::PartialOrdSpec;

verus! {

/// Two records are equal exactly when their `uid`s are, whatever their names,
/// ages and heights.
pub proof fn lemma_equal_iff_same_uid(a: Person, b: Person)
    ensures
        a.eq_spec(&b) <==> a.uid == b.uid,
        a@.same_person(b@) <==> a.uid == b.uid,
{
}

/// Sameness is an equivalence: every record is the same person as itself,
/// sameness does not depend on the side a record stands on, and it carries
/// over a record in the middle.
pub proof fn lemma_sameness_is_equivalence(a: Person, b: Person, c: Person)
    ensures
        a@.same_person(a@),
        a@.same_person(b@) <==> b@.same_person(a@),
        a@.same_person(b@) && b@.same_person(c@) ==> a@.same_person(c@),
{
}

/// A record is equal to its copy exactly when its `uid` is 0: the copy's
/// `uid` is always 0, whatever the record's own is.
pub proof fn lemma_equal_to_copy_iff_blank_uid(a: Person)
    ensures
        a@.duplicate().uid == 0,
        a@.same_person(a@.duplicate()) <==> a.uid == 0,
{
}

/// Refreshing a record from any source leaves it the same person. After it
/// the record's copy is the source's copy, and a second refresh from the same
/// source changes nothing.
pub proof fn lemma_refreshed_is_same_person(a: Person, source: Person)
    ensures
        a@.same_person(a@.refreshed_from(source@)),
        a@.refreshed_from(source@).duplicate() == source@.duplicate(),
        a@.refreshed_from(source@).refreshed_from(source@) == a@.refreshed_from(source@),
{
}

/// The order is decided by the `uid`s: a record comes before another exactly
/// when its `uid` is smaller, and after it exactly when its `uid` is larger.
pub proof fn lemma_order_by_uid(a: Person, b: Person)
    ensures
        a@.order(b@) == Ordering::Less <==> a.uid < b.uid,
        a@.order(b@) == Ordering::Equal <==> a.uid == b.uid,
        a@.order(b@) == Ordering::Greater <==> a.uid > b.uid,
        a.partial_cmp_spec(&b) == Some(a@.order(b@)),
{
}

/// The order agrees with sameness: two records compare as equal exactly when
/// they are the same person.
pub proof fn lemma_order_agrees_with_sameness(a: Person, b: Person)
    ensures
        a@.order(b@) == Ordering::Equal <==> a@.same_person(b@),
        a@.order(b@) == Ordering::Equal <==> a.eq_spec(&b),
{
}

/// The order is total: of any two records, one does not come after the other.
pub proof fn lemma_order_total(a: Person, b: Person)
    ensures
        a@.order(b@) != Ordering::Greater || b@.order(a@) != Ordering::Greater,
{
}

/// The order is antisymmetric: turning a comparison round turns its outcome
/// round, and two records of which neither comes after the other are the same
/// person.
pub proof fn lemma_order_antisymmetric(a: Person, b: Person)
    ensures
        a@.order(b@) == Ordering::Less <==> b@.order(a@) == Ordering::Greater,
        a@.order(b@) == Ordering::Equal <==> b@.order(a@) == Ordering::Equal,
        a@.order(b@) != Ordering::Greater && b@.order(a@) != Ordering::Greater
            ==> a@.same_person(b@),
{
}

/// The order is transitive, in its strict form and in its weak form, and a
/// record that compares as equal to another stands to any third as the other
/// does.
pub proof fn lemma_order_transitive(a: Person, b: Person, c: Person)
    ensures
        a@.order(b@) == Ordering::Less && b@.order(c@) == Ordering::Less
            ==> a@.order(c@) == Ordering::Less,
        a@.order(b@) != Ordering::Greater && b@.order(c@) != Ordering::Greater
            ==> a@.order(c@) != Ordering::Greater,
        a@.order(b@) == Ordering::Equal ==> a@.order(c@) == b@.order(c@),
{
}

} // verus!
