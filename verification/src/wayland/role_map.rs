//! A map from the roles of the overlay to values.

use vstd::prelude::*;

use super::window_manager::WindowId;

verus! {

/// A value for each role that has one.
pub struct RoleMap<T> {
    clock: Option<T>,
    timer: Option<T>,
    plasma: Option<T>,
}

impl<T> RoleMap<T> {
    spec fn slot(&self, id: WindowId) -> Option<T> {
        match id {
            WindowId::Clock => self.clock,
            WindowId::Timer => self.timer,
            WindowId::Plasma => self.plasma,
        }
    }
}

impl<T> View for RoleMap<T> {
    type V = Map<WindowId, T>;

    closed spec fn view(&self) -> Map<WindowId, T> {
        Map::new(|id: WindowId| self.slot(id).is_some(), |id: WindowId| self.slot(id).unwrap())
    }
}

impl<T> RoleMap<T> {
    /// The map that holds no role.
    pub fn new() -> (m: Self)
        ensures
            m@ == Map::<WindowId, T>::empty(),
    {
        let m = RoleMap { clock: None, timer: None, plasma: None };
        assert(m@ =~= Map::<WindowId, T>::empty());
        m
    }

    /// The value of a role, if it has one.
    pub fn get(&self, id: WindowId) -> (v: Option<&T>)
        ensures
            v.is_some() == self@.contains_key(id),
            v matches Some(r) ==> *r == self@[id],
    {
        match id {
            WindowId::Clock => self.clock.as_ref(),
            WindowId::Timer => self.timer.as_ref(),
            WindowId::Plasma => self.plasma.as_ref(),
        }
    }

    /// The value of a role for writing, if it has one. The map holds
    /// whatever is written.
    pub fn get_mut(&mut self, id: WindowId) -> (v: Option<&mut T>)
        ensures
            v.is_some() == old(self)@.contains_key(id),
            match v {
                Some(r) => *r == old(self)@[id] && final(self)@ == old(self)@.insert(
                    id,
                    *final(r),
                ),
                None => final(self)@ == old(self)@,
            },
    {
        let v = match id {
            WindowId::Clock => self.clock.as_mut(),
            WindowId::Timer => self.timer.as_mut(),
            WindowId::Plasma => self.plasma.as_mut(),
        };
        v
    }

    /// Whether a role has a value.
    pub fn contains(&self, id: WindowId) -> (held: bool)
        ensures
            held == self@.contains_key(id),
    {
        match id {
            WindowId::Clock => self.clock.is_some(),
            WindowId::Timer => self.timer.is_some(),
            WindowId::Plasma => self.plasma.is_some(),
        }
    }

    /// Gives a role a value. Returns the value it had before, if any.
    pub fn insert(&mut self, id: WindowId, value: T) -> (before: Option<T>)
        ensures
            final(self)@ == old(self)@.insert(id, value),
            before.is_some() == old(self)@.contains_key(id),
            before matches Some(b) ==> b == old(self)@[id],
    {
        let before = match id {
            WindowId::Clock => self.clock.take(),
            WindowId::Timer => self.timer.take(),
            WindowId::Plasma => self.plasma.take(),
        };
        match id {
            WindowId::Clock => {
                self.clock = Some(value);
            },
            WindowId::Timer => {
                self.timer = Some(value);
            },
            WindowId::Plasma => {
                self.plasma = Some(value);
            },
        }
        assert(self@ =~= old(self)@.insert(id, value));
        before
    }

    /// Takes the value of a role away. Returns the value it had, if any.
    pub fn remove(&mut self, id: WindowId) -> (before: Option<T>)
        ensures
            final(self)@ == old(self)@.remove(id),
            before.is_some() == old(self)@.contains_key(id),
            before matches Some(b) ==> b == old(self)@[id],
    {
        let before = match id {
            WindowId::Clock => self.clock.take(),
            WindowId::Timer => self.timer.take(),
            WindowId::Plasma => self.plasma.take(),
        };
        assert(self@ =~= old(self)@.remove(id));
        before
    }
}

} // verus!
