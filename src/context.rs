//! Entities owned by the application, weak handles to them, and the
//! context through which a screen reaches the application's state.

use vstd::prelude::*;

verus! {

/// The entities of type `T` that the application owns, one per slot; the
/// slot of a released entity stays empty.
pub struct Entities<T> {
    slots: Vec<Option<T>>,
}

/// A handle to an entity that does not keep it alive; an invalid handle
/// refers to no slot.
pub struct WeakEntity<T> {
    slot: Option<usize>,
    marker: std::marker::PhantomData<T>,
}

impl<T> WeakEntity<T> {
    pub closed spec fn slot(&self) -> Option<usize> {
        self.slot
    }

    /// A handle that refers to no entity.
    pub fn new_invalid() -> (r: Self)
        ensures
            r.slot() is None,
    {
        WeakEntity { slot: None, marker: std::marker::PhantomData }
    }

    /// The entity, if it is still owned.
    pub fn upgrade<'a>(&self, entities: &'a Entities<T>) -> (r: Option<&'a T>)
        ensures
            r == live(entities.slots(), self.slot()),
    {
        match self.slot {
            Some(i) => if i < entities.slots.len() {
                match &entities.slots[i] {
                    Some(v) => Some(v),
                    None => None,
                }
            } else {
                None
            },
            None => None,
        }
    }
}

impl<T> Clone for WeakEntity<T> {
    fn clone(&self) -> (r: Self)
        ensures
            r.slot() == self.slot(),
    {
        WeakEntity { slot: self.slot, marker: std::marker::PhantomData }
    }
}

/// The entity in slot `slot` of `slots`, when there is one.
pub open spec fn live<'a, T>(slots: Seq<Option<T>>, slot: Option<usize>) -> Option<&'a T> {
    match slot {
        Some(i) => if i < slots.len() {
            match slots[i as int] {
                Some(v) => Some(&v),
                None => None,
            }
        } else {
            None
        },
        None => None,
    }
}

impl<T> Entities<T> {
    pub closed spec fn slots(&self) -> Seq<Option<T>> {
        self.slots@
    }

    /// No entity.
    pub fn new() -> (r: Self)
        ensures
            r.slots() == Seq::<Option<T>>::empty(),
    {
        Entities { slots: Vec::new() }
    }

    /// Takes ownership of `value` in a new slot, and returns a handle to it.
    pub fn insert(&mut self, value: T) -> (r: WeakEntity<T>)
        ensures
            final(self).slots() == old(self).slots().push(Some(value)),
            r.slot() == Some(old(self).slots().len() as usize),
    {
        let i = self.slots.len();
        self.slots.push(Some(value));
        WeakEntity { slot: Some(i), marker: std::marker::PhantomData }
    }

    /// Drops the entity `handle` refers to, if it is owned.
    pub fn release(&mut self, handle: &WeakEntity<T>)
        ensures
            handle.slot() is Some && handle.slot().unwrap() < old(self).slots().len() ==> final(self).slots() == old(self).slots().update(handle.slot().unwrap() as int, None),
            !(handle.slot() is Some && handle.slot().unwrap() < old(self).slots().len()) ==> final(self).slots() == old(self).slots(),
    {
        match handle.slot {
            Some(i) => if i < self.slots.len() {
                self.slots.set(i, None);
            },
            None => {},
        }
    }

    /// The entity `handle` refers to, for updating, if it is owned.
    pub fn get_mut(&mut self, handle: &WeakEntity<T>) -> (r: Option<&mut T>)
        ensures
            r is Some <==> live(old(self).slots(), handle.slot()) is Some,
            r matches Some(m) ==> handle.slot() matches Some(i) && old(self).slots()[i as int]
                == Some(*m) && final(self).slots() == old(self).slots().update(
                i as int,
                Some(*final(m)),
            ),
            r is None ==> final(self).slots() == old(self).slots(),
    {
        match handle.slot {
            Some(i) => if i < self.slots.len() {
                self.slots[i].as_mut()
            } else {
                None
            },
            None => None,
        }
    }
}

/// What a screen holds to reach the application's state `T`.
pub struct ScreenContext<T> {
    app_state: WeakEntity<T>,
}

impl<T> ScreenContext<T> {
    pub closed spec fn handle(&self) -> WeakEntity<T> {
        self.app_state
    }

    /// A context reaching the state through `app_state`.
    pub fn new(app_state: WeakEntity<T>) -> (r: Self)
        ensures
            r.handle() == app_state,
    {
        ScreenContext { app_state }
    }

    /// A copy of the handle to the application's state, for a new screen.
    pub fn app_state(&self) -> (r: WeakEntity<T>)
        ensures
            r.slot() == self.handle().slot(),
    {
        self.app_state.clone()
    }

    /// The application's state, for updating, while it is still owned.
    pub fn update<'a>(&self, entities: &'a mut Entities<T>) -> (r: Option<&'a mut T>)
        ensures
            r is Some <==> live(old(entities).slots(), self.handle().slot()) is Some,
            r matches Some(m) ==> self.handle().slot() matches Some(i) && old(
                entities,
            ).slots()[i as int] == Some(*m) && final(entities).slots() == old(
                entities,
            ).slots().update(i as int, Some(*final(m))),
            r is None ==> final(entities).slots() == old(entities).slots(),
    {
        entities.get_mut(&self.app_state)
    }
}

impl<T> Clone for ScreenContext<T> {
    fn clone(&self) -> (r: Self)
        ensures
            r.handle().slot() == self.handle().slot(),
    {
        ScreenContext { app_state: self.app_state.clone() }
    }
}

} // verus!
