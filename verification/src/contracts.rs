//! Two small contracts that hold one flag each.

use vstd::prelude::*;

verus! {

/// A contract that holds a flag.
pub struct OtherContract {
    value: bool,
}

impl OtherContract {
    /// The flag that the contract holds.
    pub closed spec fn flag(self) -> bool {
        self.value
    }

    /// A contract that holds `init_value`.
    pub fn new(init_value: bool) -> (contract: Self)
        ensures
            contract.flag() == init_value,
    {
        Self { value: init_value }
    }

    /// Turns the flag over.
    pub fn flip(&mut self)
        ensures
            final(self).flag() == !old(self).flag(),
    {
        self.value = !self.value;
    }

    /// The flag.
    pub fn get(&self) -> (value: bool)
        ensures
            value == self.flag(),
    {
        self.value
    }
}

/// A contract that holds a flag on the heap, so that every use of it goes
/// through the allocator.
pub struct CustomAllocator {
    value: Vec<bool>,
}

impl CustomAllocator {
    #[verifier::type_invariant]
    spec fn holds_one(self) -> bool {
        self.value@.len() == 1
    }

    /// The flag that the contract holds.
    pub closed spec fn flag(self) -> bool {
        self.value@[0]
    }

    /// A contract that holds `init_value`.
    pub fn new(init_value: bool) -> (contract: Self)
        ensures
            contract.flag() == init_value,
    {
        let mut value: Vec<bool> = Vec::new();
        value.push(init_value);
        Self { value }
    }

    /// A contract whose flag is down.
    pub fn default() -> (contract: Self)
        ensures
            !contract.flag(),
    {
        Self::new(false)
    }

    /// Turns the flag over.
    pub fn flip(&mut self)
        ensures
            final(self).flag() == !old(self).flag(),
    {
        proof {
            use_type_invariant(&*self);
        }
        let mut turned: Vec<bool> = Vec::new();
        turned.push(!self.value[0]);
        self.value = turned;
    }

    /// The flag.
    pub fn get(&self) -> (value: bool)
        ensures
            value == self.flag(),
    {
        proof {
            use_type_invariant(self);
        }
        self.value[0]
    }
}

} // verus!
