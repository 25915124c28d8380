//! The contract of the minimal scenario: one stored boolean that a message toggles.

use vstd::prelude::*;

verus! {

pub struct Riscy {
    value: bool,
}

impl Riscy {
    /// The stored value.
    pub closed spec fn view(&self) -> bool {
        self.value
    }

    pub fn new(init_value: bool) -> (r: Riscy)
        ensures
            r@ == init_value,
    {
        Riscy { value: init_value }
    }

    /// A contract that starts out false.
    pub fn default() -> (r: Riscy)
        ensures
            r@ == false,
    {
        Riscy::new(false)
    }

    pub fn flip(&mut self)
        ensures
            final(self)@ == !old(self)@,
    {
        self.value = !self.value;
    }

    pub fn get(&self) -> (v: bool)
        ensures
            v == self@,
    {
        self.value
    }
}

} // verus!
