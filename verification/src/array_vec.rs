//! Trusted interface to the `arrayvec` crate.
//!
//! The team record keeps its per-member entries in an
//! `arrayvec::ArrayVec<(Luck, i8), TEAM_MAX_CAPACITY>`, a fixed-capacity
//! inline vector. Verus sees the type as opaque; [`entries`] names what such
//! a vector holds, and each wrapper below states over that name what the
//! crate's source shows of the method it calls.

use vstd::prelude::*;

use crate::constants::TEAM_MAX_CAPACITY;
use crate::luck::Luck;

verus! {

#[verifier::external_type_specification]
#[verifier::external_body]
#[verifier::reject_recursive_types(T)]
pub struct ExArrayVec<T, const CAP: usize>(arrayvec::ArrayVec<T, CAP>);

/// The items a per-member entry vector holds, in insertion order.
pub uninterp spec fn entries(v: arrayvec::ArrayVec<(Luck, i8), TEAM_MAX_CAPACITY>) -> Seq<
    (Luck, i8),
>;

/// Relies on `ArrayVec::new`: creates an empty vector.
#[verifier::external_body]
pub fn new_entries() -> (r: arrayvec::ArrayVec<(Luck, i8), TEAM_MAX_CAPACITY>)
    ensures
        entries(r) == Seq::<(Luck, i8)>::empty(),
{
    arrayvec::ArrayVec::new()
}

/// Relies on `ArrayVec::push`: appends the element at the end. It panics
/// when the vector is full, which the precondition rules out.
#[verifier::external_body]
pub fn push_entry(v: &mut arrayvec::ArrayVec<(Luck, i8), TEAM_MAX_CAPACITY>, item: (Luck, i8))
    requires
        entries(*old(v)).len() < TEAM_MAX_CAPACITY,
    ensures
        entries(*final(v)) == entries(*old(v)).push(item),
{
    v.push(item)
}

/// Relies on `ArrayVec::len`: the number of items held.
#[verifier::external_body]
pub fn entry_count(v: &arrayvec::ArrayVec<(Luck, i8), TEAM_MAX_CAPACITY>) -> (r: usize)
    ensures
        r == entries(*v).len(),
{
    v.len()
}

/// Relies on `ArrayVec::as_slice`: the items in insertion order.
#[verifier::external_body]
pub fn entry_at(v: &arrayvec::ArrayVec<(Luck, i8), TEAM_MAX_CAPACITY>, i: usize) -> (r: (
    Luck,
    i8,
))
    requires
        i < entries(*v).len(),
    ensures
        r == entries(*v)[i as int],
{
    v.as_slice()[i]
}

} // verus!
