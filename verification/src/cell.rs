//! A single-value container whose content can be replaced and, for `Copy`
//! values, copied out. The stored value is exposed to contracts through
//! [`Cell::value_spec`].

use vstd::prelude::*;

verus! {

pub struct Cell<T> {
    value: T,
}

impl<T> Cell<T> {
    /// The value currently stored in the cell.
    pub closed spec fn value_spec(&self) -> T {
        self.value
    }

    pub fn new(value: T) -> (r: Self)
        ensures
            r.value_spec() == value,
    {
        Cell { value }
    }

    pub fn set(&mut self, value: T)
        ensures
            final(self).value_spec() == value,
    {
        self.value = value;
    }

    pub fn get(&self) -> (r: T) where T: Copy
        ensures
            r == self.value_spec(),
    {
        self.value
    }
}

} // verus!
