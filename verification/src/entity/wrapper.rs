//! One entity out, the others in view: the borrow that lets an entity be
//! changed while every other entity of its table stays within reach.

use vstd::prelude::*;

use super::store::{lemma_first_is_position, lemma_position_is_first, position_of};
use super::Entity;
use crate::id::{EntityKind, Id};

verus! {

/// The place in the table of what the view shows at place `shown`, when the
/// table's place `excluded` is left out of the view.
pub open spec fn table_place(excluded: int, shown: int) -> int {
    if shown >= excluded {
        shown + 1
    } else {
        shown
    }
}

/// The place in the view of the table's place `place`, when the table's
/// place `excluded` is left out of the view.
pub open spec fn shown_place(excluded: int, place: int) -> int {
    if place > excluded {
        place - 1
    } else {
        place
    }
}

/// All the entities of a table but one.
///
/// A view is only ever made together with the exclusive borrow of the entity
/// that it leaves out: it holds the stretch of the table before that entity
/// and the stretch after it, and nothing else, so nothing that is done with
/// the view can reach the entity. Places are counted as in the table; the
/// place of the entity left out answers to nothing.
///
/// The view of a `Wrapper` is the sequence of the entities it shows, in
/// table order.
pub struct Wrapper<'a> {
    front: &'a mut [Entity],
    back: &'a mut [Entity],
}

impl<'a> View for Wrapper<'a> {
    type V = Seq<Entity>;

    open spec fn view(&self) -> Seq<Entity> {
        self.before()@ + self.after()@
    }
}

impl<'a> Wrapper<'a> {
    /// The borrowed stretch of the table before the entity left out.
    pub closed spec fn before(&self) -> &'a mut [Entity] {
        self.front
    }

    /// The borrowed stretch of the table after the entity left out.
    pub closed spec fn after(&self) -> &'a mut [Entity] {
        self.back
    }

    /// The table's place of the entity left out.
    pub open spec fn excluded(&self) -> int {
        self.before()@.len() as int
    }

    /// Whether every place of the table that the view was made of can be
    /// counted. It is so of every view that [`Wrapper::new`] made, and stays
    /// so whatever is done with the view.
    pub open spec fn fits(&self) -> bool {
        self@.len() < usize::MAX
    }

    /// Once a view is no longer used, its two stretches hold for good what
    /// they hold then.
    pub proof fn lemma_settled(self)
        requires
            has_resolved(self),
        ensures
            final(self.before())@ == self.before()@,
            final(self.after())@ == self.after()@,
    {
    }

    /// Borrows the entity at `position` of `a`, and the rest of `a` as a
    /// view; nothing where `a` has no such place.
    pub fn new(a: &'a mut [Entity], position: usize) -> (parts: Option<
        (&'a mut Entity, Wrapper<'a>),
    >)
        ensures
            parts is Some <==> position < old(a)@.len(),
            parts is None ==> final(a)@ == old(a)@,
            parts matches Some((entity, rest)) ==> {
                &&& *entity == old(a)@[position as int]
                &&& rest@ == old(a)@.remove(position as int)
                &&& rest.excluded() == position
                &&& rest.fits()
                &&& final(a)@ == final(rest.before())@ + seq![*final(entity)]
                    + final(rest.after())@
            },
    {
        if position >= a.len() {
            return None;
        }
        let (front, tail) = a.split_at_mut(position);
        let (one, back) = tail.split_at_mut(1);
        let entity = one.first_mut().unwrap();
        Some((entity, Wrapper { front, back }))
    }

    /// The entity at the table's place `index`, to be changed in place;
    /// nothing for the place of the entity left out, and nothing beyond the
    /// table's end.
    pub fn get_by_index(&mut self, index: usize) -> (found: Option<&mut Entity>)
        ensures
            found is Some <==> index != old(self).excluded() && index <= old(self)@.len(),
            found matches Some(entity) ==> {
                let shown = shown_place(old(self).excluded(), index as int);
                &&& *entity == old(self)@[shown]
                &&& final(self)@ == old(self)@.update(shown, *final(entity))
            },
            found is None ==> final(self)@ == old(self)@,
            final(self).excluded() == old(self).excluded(),
            final(final(self).before())@ == final(old(self).before())@,
            final(final(self).after())@ == final(old(self).after())@,
    {
        let excluded = self.front.len();
        if index < excluded {
            Some(&mut self.front[index])
        } else if index == excluded {
            None
        } else if index - excluded - 1 < self.back.len() {
            Some(&mut self.back[index - excluded - 1])
        } else {
            None
        }
    }

    /// The first entity in view with the identifier `id`, to be changed in
    /// place. The entity left out is never found, whatever its identifier.
    pub fn get(&mut self, id: Id<EntityKind>) -> (found: Option<&mut Entity>)
        requires
            old(self).fits(),
        ensures
            match position_of(old(self)@, id@) {
                Some(shown) => {
                    &&& found matches Some(entity)
                    &&& *entity == old(self)@[shown]
                    &&& final(self)@ == old(self)@.update(shown, *final(entity))
                },
                None => found is None && final(self)@ == old(self)@,
            },
            final(self).excluded() == old(self).excluded(),
            final(final(self).before())@ == final(old(self).before())@,
            final(final(self).after())@ == final(old(self).after())@,
    {
        proof {
            lemma_position_is_first(self@, id@);
        }
        match self.get_position(id) {
            Some(pos) => self.get_by_index(pos),
            None => None,
        }
    }

    /// A pass over the entities in view, in table order, each to be changed
    /// in place. The view afterwards holds, stretch by stretch, what the pass
    /// holds at the end.
    pub fn iter<'b>(&'b mut self) -> (pass: WrapperIter<'b>)
        ensures
            pass.front()@ == old(self).before()@,
            pass.back()@ == old(self).after()@,
            final(self).before()@ == final(pass.front())@,
            final(self).after()@ == final(pass.back())@,
            final(final(self).before())@ == final(old(self).before())@,
            final(final(self).after())@ == final(old(self).after())@,
    {
        WrapperIter { head: &mut *self.front, tail: &mut *self.back }
    }

    /// The table's place of the first entity in view with the identifier
    /// `id`. The view stays as it is.
    pub fn get_position(&mut self, id: Id<EntityKind>) -> (found: Option<usize>)
        requires
            old(self).fits(),
        ensures
            match position_of(old(self)@, id@) {
                Some(shown) => found matches Some(place) && place == table_place(
                    old(self).excluded(),
                    shown,
                ),
                None => found is None,
            },
            final(self)@ == old(self)@,
            final(self).excluded() == old(self).excluded(),
            final(final(self).before())@ == final(old(self).before())@,
            final(final(self).after())@ == final(old(self).after())@,
    {
        let excluded = self.front.len();
        let mut shown: usize = 0;
        while shown < excluded
            invariant
                excluded == self.front@.len(),
                shown <= excluded,
                *self == *old(self),
                forall|j: int| 0 <= j < shown ==> (#[trigger] self@[j])@.id != id@,
            decreases excluded - shown,
        {
            if self.front[shown].get_id() == id {
                proof {
                    lemma_first_is_position(self@, id@, shown as int);
                }
                return Some(shown);
            }
            shown += 1;
        }
        let mut behind: usize = 0;
        while behind < self.back.len()
            invariant
                excluded == self.front@.len(),
                behind <= self.back@.len(),
                excluded + 1 + self.back@.len() <= usize::MAX,
                *self == *old(self),
                forall|j: int| 0 <= j < excluded + behind ==> (#[trigger] self@[j])@.id != id@,
            decreases self.back.len() - behind,
        {
            if self.back[behind].get_id() == id {
                proof {
                    lemma_first_is_position(self@, id@, excluded + behind);
                }
                return Some(excluded + 1 + behind);
            }
            behind += 1;
        }
        None
    }
}

/// A pass over the entities that a [`Wrapper`] shows.
///
/// The view of a pass is the sequence of the entities still to come.
pub struct WrapperIter<'a> {
    head: &'a mut [Entity],
    tail: &'a mut [Entity],
}

impl<'a> View for WrapperIter<'a> {
    type V = Seq<Entity>;

    open spec fn view(&self) -> Seq<Entity> {
        self.front()@ + self.back()@
    }
}

impl<'a> WrapperIter<'a> {
    /// What is still to come of the stretch before the entity left out.
    pub closed spec fn front(&self) -> &'a mut [Entity] {
        self.head
    }

    /// What is still to come of the stretch after the entity left out.
    pub closed spec fn back(&self) -> &'a mut [Entity] {
        self.tail
    }

    /// Once a pass is no longer used, its two stretches hold for good what
    /// they hold then.
    pub proof fn lemma_settled(self)
        requires
            has_resolved(self),
        ensures
            final(self.front())@ == self.front()@,
            final(self.back())@ == self.back()@,
    {
    }

    /// The next entity in table order, to be changed in place, or nothing
    /// when the pass is over. The entity is taken off the stretch it came
    /// from; the other stretch stays as it is.
    pub fn next(&mut self) -> (entity: Option<&'a mut Entity>)
        ensures
            entity is Some <==> old(self)@.len() > 0,
            entity matches Some(e) ==> *e == old(self)@[0] && final(self)@ == old(self)@.drop_first(),
            entity is None ==> final(self)@ == old(self)@,
            if old(self).front()@.len() > 0 {
                &&& entity matches Some(e)
                &&& final(self).front()@ == old(self).front()@.drop_first()
                &&& final(self).back()@ == old(self).back()@
                &&& final(old(self).front())@ == seq![*final(e)] + final(final(self).front())@
                &&& final(final(self).back())@ == final(old(self).back())@
            } else if old(self).back()@.len() > 0 {
                &&& entity matches Some(e)
                &&& final(self).front()@ == old(self).front()@
                &&& final(self).back()@ == old(self).back()@.drop_first()
                &&& final(final(self).front())@ == final(old(self).front())@
                &&& final(old(self).back())@ == seq![*final(e)] + final(final(self).back())@
            } else {
                &&& final(self).front()@ == old(self).front()@
                &&& final(self).back()@ == old(self).back()@
                &&& final(final(self).front())@ == final(old(self).front())@
                &&& final(final(self).back())@ == final(old(self).back())@
            },
    {
        if self.head.len() > 0 {
            let mut stretch: &'a mut [Entity] = &mut [];
            std::mem::swap(&mut stretch, &mut self.head);
            let (one, rest) = stretch.split_at_mut(1);
            self.head = rest;
            return one.first_mut();
        }
        if self.tail.len() > 0 {
            let mut stretch: &'a mut [Entity] = &mut [];
            std::mem::swap(&mut stretch, &mut self.tail);
            let (one, rest) = stretch.split_at_mut(1);
            self.tail = rest;
            return one.first_mut();
        }
        None
    }
}

/// A pass over a table that takes each entity in turn as the one to be
/// changed.
pub struct IterMutWrapper<'a> {
    inner: &'a mut [Entity],
    current_position: usize,
}

impl<'a> IterMutWrapper<'a> {
    /// The borrowed table.
    pub closed spec fn entities(&self) -> &'a mut [Entity] {
        self.inner
    }

    /// The place of the entity that comes next.
    pub closed spec fn position(&self) -> int {
        self.current_position as int
    }

    /// Once a pass is no longer used, the table holds for good what it
    /// holds then.
    pub proof fn lemma_settled(self)
        requires
            has_resolved(self),
        ensures
            final(self.entities())@ == self.entities()@,
    {
    }

    /// A pass over `inner` that starts at its first entity.
    pub fn new(inner: &'a mut [Entity]) -> (pass: Self)
        ensures
            pass.entities()@ == old(inner)@,
            pass.position() == 0,
            final(inner)@ == final(pass.entities())@,
    {
        IterMutWrapper { inner, current_position: 0 }
    }

    /// The next entity of the table, to be changed in place, together with a
    /// view of all the others; nothing once every entity has had its turn.
    ///
    /// The two borrow the pass itself, so they must be let go before the
    /// next step. The table afterwards holds, in the order of before, what
    /// the view's two stretches hold at the end and, between them, the
    /// entity as it was left.
    pub fn next_item<'b>(&'b mut self) -> (item: Option<(&'b mut Entity, Wrapper<'b>)>)
        ensures
            item is Some <==> old(self).position() < old(self).entities()@.len(),
            item matches Some((entity, rest)) ==> {
                &&& final(self).position() == old(self).position() + 1
                &&& *entity == old(self).entities()@[old(self).position()]
                &&& rest@ == old(self).entities()@.remove(old(self).position())
                &&& rest.excluded() == old(self).position()
                &&& rest.fits()
                &&& final(self).entities()@ == final(rest.before())@ + seq![*final(entity)]
                    + final(rest.after())@
            },
            item is None ==> {
                &&& final(self).position() == old(self).position()
                &&& final(self).entities()@ == old(self).entities()@
            },
            final(final(self).entities())@ == final(old(self).entities())@,
    {
        let position = self.current_position;
        if position < self.inner.len() {
            self.current_position = position + 1;
        }
        Wrapper::new(&mut *self.inner, position)
    }
}

} // verus!
