//! Identifiers: 64-bit handles tagged with the kind of thing they name, and
//! the counters that hand out fresh ones.

use std::marker::PhantomData;
use vstd::prelude::*;
use vstd::std_specs::cmp::PartialEqSpecImpl;

verus! {

/// A stable handle for a live object of kind `K`.
///
/// The handle is a plain number; the kind tag only keeps handles of
/// different kinds from being confused with one another at compile time.
/// The view of a handle is its number.
#[derive(Debug)]
pub struct Id<K> {
    value: u64,
    kind: PhantomData<K>,
}

impl<K> View for Id<K> {
    type V = u64;

    closed spec fn view(&self) -> u64 {
        self.value
    }
}

/// Kind tag of the identifiers of live entities.
#[derive(Debug)]
pub struct EntityKind {}

/// Kind tag of the identifiers of persisted players.
#[derive(Debug)]
pub struct PlayerKind {}

/// Kind tag of the identifiers of maps.
#[derive(Debug)]
pub struct MapKind {}

/// Kinds whose identifiers come from outside the running server (from
/// storage or from a request) and may therefore be built from a bare number.
pub trait HasForgeableId {

}

impl HasForgeableId for PlayerKind {

}

impl HasForgeableId for MapKind {

}

impl<K: HasForgeableId> Id<K> {
    /// Builds the identifier with the given number.
    pub fn forge(value: u64) -> (id: Self)
        ensures
            id@ == value,
    {
        Id { value, kind: PhantomData }
    }
}

impl<K> Id<K> {
    /// The number behind the identifier.
    pub fn as_u64(self) -> (value: u64)
        ensures
            value == self@,
    {
        self.value
    }
}

impl<K> Clone for Id<K> {
    fn clone(&self) -> (copy: Self)
        ensures
            copy@ == self@,
    {
        Id { value: self.value, kind: PhantomData }
    }
}

impl<K> Copy for Id<K> {

}

impl<K> PartialEq for Id<K> {
    fn eq(&self, other: &Self) -> (equal: bool) {
        self.value == other.value
    }
}

impl<K> Eq for Id<K> {

}

impl<K> PartialEqSpecImpl for Id<K> {
    open spec fn obeys_eq_spec() -> bool {
        true
    }

    open spec fn eq_spec(&self, other: &Self) -> bool {
        self@ == other@
    }
}

/// A number that claims to name an object of kind `K`, with no promise that
/// such an object is alive. Requests from outside carry these.
#[derive(Debug)]
pub struct WeakId<K> {
    value: u64,
    kind: PhantomData<K>,
}

impl<K> View for WeakId<K> {
    type V = u64;

    closed spec fn view(&self) -> u64 {
        self.value
    }
}

impl<K> WeakId<K> {
    /// The weak identifier with the given number.
    pub fn new(value: u64) -> (id: Self)
        ensures
            id@ == value,
    {
        WeakId { value, kind: PhantomData }
    }

    /// The weak form of a live object's identifier.
    pub fn of(id: Id<K>) -> (weak: Self)
        ensures
            weak@ == id@,
    {
        WeakId { value: id.value, kind: PhantomData }
    }

    /// The number behind the identifier.
    pub fn as_u64(self) -> (value: u64)
        ensures
            value == self@,
    {
        self.value
    }
}

impl<K> Clone for WeakId<K> {
    fn clone(&self) -> (copy: Self)
        ensures
            copy@ == self@,
    {
        WeakId { value: self.value, kind: PhantomData }
    }
}

impl<K> Copy for WeakId<K> {

}

impl<K> PartialEq for WeakId<K> {
    fn eq(&self, other: &Self) -> (equal: bool) {
        self.value == other.value
    }
}

impl<K> Eq for WeakId<K> {

}

impl<K> PartialEqSpecImpl for WeakId<K> {
    open spec fn obeys_eq_spec() -> bool {
        true
    }

    open spec fn eq_spec(&self, other: &Self) -> bool {
        self@ == other@
    }
}

/// A counter that hands out numbers one after the other.
///
/// The server keeps one for entity identifiers and one for skins. Each is
/// created once, handed to whoever needs fresh numbers, and never reset. The
/// view of a counter is the number it hands out next.
#[derive(Debug)]
pub struct Sequence {
    upcoming: u64,
}

impl View for Sequence {
    type V = u64;

    closed spec fn view(&self) -> u64 {
        self.upcoming
    }
}

/// The number that follows `value` in a counter; after the largest number
/// the count starts over at 0.
pub open spec fn successor(value: u64) -> u64 {
    if value == u64::MAX {
        0
    } else {
        (value + 1) as u64
    }
}

impl Sequence {
    /// A counter that starts at 0.
    pub fn new() -> (sequence: Self)
        ensures
            sequence@ == 0,
    {
        Sequence { upcoming: 0 }
    }

    /// A counter that starts at `first`.
    pub fn starting_at(first: u64) -> (sequence: Self)
        ensures
            sequence@ == first,
    {
        Sequence { upcoming: first }
    }

    /// Hands out the next number and moves on to its successor.
    pub fn next(&mut self) -> (value: u64)
        ensures
            value == old(self)@,
            final(self)@ == successor(old(self)@),
    {
        let value = self.upcoming;
        self.upcoming = if value == u64::MAX {
            0
        } else {
            value + 1
        };
        value
    }

    /// Hands out the next number as an identifier of kind `K`.
    pub fn next_id<K>(&mut self) -> (id: Id<K>)
        ensures
            id@ == old(self)@,
            final(self)@ == successor(old(self)@),
    {
        let value = self.next();
        Id { value, kind: PhantomData }
    }
}

} // verus!
