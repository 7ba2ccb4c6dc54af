//! A container that hands out counted shared borrows or one exclusive
//! borrow, never both at once. The dynamically-checked counting discipline
//! is a verified state machine: borrows are represented by tokens ([`Ref`],
//! [`RefMut`]) that the caller returns to end the borrow.

use vstd::prelude::*;

verus! {

/// The borrow state: not borrowed, shared a counted number of times, or
/// exclusively borrowed.
#[derive(Clone, Copy, Debug, PartialEq, Eq, Structural)]
pub enum RefState {
    Unshared,
    Shared(usize),
    Exclusive,
}

/// A token witnessing one shared borrow.
pub struct Ref;

/// A token witnessing the exclusive borrow.
pub struct RefMut;

pub struct RefCell<T> {
    value: T,
    state: RefState,
}

impl<T> RefCell<T> {
    /// The current borrow state.
    pub closed spec fn state_spec(&self) -> RefState {
        self.state
    }

    /// The stored value.
    pub closed spec fn value_spec(&self) -> T {
        self.value
    }

    /// A share count is never zero.
    pub open spec fn wf(&self) -> bool {
        match self.state_spec() {
            RefState::Shared(n) => n >= 1,
            _ => true,
        }
    }

    pub fn new(value: T) -> (r: Self)
        ensures
            r.wf(),
            r.state_spec() == RefState::Unshared,
            r.value_spec() == value,
    {
        RefCell { value, state: RefState::Unshared }
    }

    /// Takes one more shared borrow: allowed unless the value is
    /// exclusively borrowed (or the share count is already full).
    pub fn borrow(&mut self) -> (r: Option<Ref>)
        requires
            old(self).wf(),
        ensures
            final(self).wf(),
            final(self).value_spec() == old(self).value_spec(),
            match old(self).state_spec() {
                RefState::Unshared => r is Some && final(self).state_spec() == RefState::Shared(
                    1,
                ),
                RefState::Shared(n) => if n < usize::MAX {
                    r is Some && final(self).state_spec() == RefState::Shared((n + 1) as usize)
                } else {
                    r is None && final(self).state_spec() == old(self).state_spec()
                },
                RefState::Exclusive => r is None && final(self).state_spec() == old(
                    self,
                ).state_spec(),
            },
    {
        match self.state {
            RefState::Unshared => {
                self.state = RefState::Shared(1);
                Some(Ref)
            },
            RefState::Shared(n) => {
                if n < usize::MAX {
                    self.state = RefState::Shared(n + 1);
                    Some(Ref)
                } else {
                    None
                }
            },
            RefState::Exclusive => None,
        }
    }

    /// Takes the exclusive borrow: allowed only when nothing is borrowed.
    pub fn borrow_mut(&mut self) -> (r: Option<RefMut>)
        requires
            old(self).wf(),
        ensures
            final(self).wf(),
            final(self).value_spec() == old(self).value_spec(),
            match old(self).state_spec() {
                RefState::Unshared => r is Some && final(self).state_spec()
                    == RefState::Exclusive,
                RefState::Shared(_) => r is None && final(self).state_spec() == old(
                    self,
                ).state_spec(),
                RefState::Exclusive => r is None && final(self).state_spec() == old(
                    self,
                ).state_spec(),
            },
    {
        if let RefState::Unshared = self.state {
            self.state = RefState::Exclusive;
            Some(RefMut)
        } else {
            None
        }
    }

    /// Reads the value.
    pub fn read(&self) -> (r: &T)
        ensures
            r == self.value_spec(),
    {
        &self.value
    }

    /// Ends one shared borrow, giving its token back: the count goes down
    /// by one, and the value becomes unshared when the last borrow ends.
    pub fn unborrow(&mut self, _token: Ref)
        requires
            old(self).wf(),
            old(self).state_spec() is Shared,
        ensures
            final(self).wf(),
            final(self).value_spec() == old(self).value_spec(),
            match old(self).state_spec() {
                RefState::Shared(n) => final(self).state_spec() == if n == 1 {
                    RefState::Unshared
                } else {
                    RefState::Shared((n - 1) as usize)
                },
                _ => false,
            },
    {
        match self.state {
            RefState::Shared(n) => {
                if n == 1 {
                    self.state = RefState::Unshared;
                } else {
                    self.state = RefState::Shared(n - 1);
                }
            },
            _ => {},
        }
    }

    /// Ends the exclusive borrow, giving its token back.
    pub fn unborrow_mut(&mut self, _token: RefMut)
        requires
            old(self).state_spec() is Exclusive,
        ensures
            final(self).wf(),
            final(self).value_spec() == old(self).value_spec(),
            final(self).state_spec() == RefState::Unshared,
    {
        self.state = RefState::Unshared;
    }

    /// Replaces the value through the exclusive borrow.
    pub fn write(&mut self, _token: &RefMut, value: T)
        requires
            old(self).state_spec() is Exclusive,
        ensures
            final(self).state_spec() == old(self).state_spec(),
            final(self).wf(),
            final(self).value_spec() == value,
    {
        self.value = value;
    }
}

} // verus!
