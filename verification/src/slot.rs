//! A single-assignment slot: it accepts one write for its lifetime and keeps
//! that value for good.

use vstd::prelude::*;

verus! {

/// A storage cell that is either empty or holds the first value written to it.
pub struct OnceSlot<T> {
    value: Option<T>,
}

impl<T> View for OnceSlot<T> {
    type V = Option<T>;

    closed spec fn view(&self) -> Option<T> {
        self.value
    }
}

impl<T> OnceSlot<T> {
    /// What a write of `value` leaves in a slot that held `before`: the first
    /// value stays, and only an empty slot takes the new one.
    pub open spec fn written(before: Option<T>, value: T) -> Option<T> {
        match before {
            Some(_) => before,
            None => Some(value),
        }
    }

    /// An empty slot.
    pub fn new() -> (slot: Self)
        ensures
            slot@ is None,
    {
        OnceSlot { value: None }
    }

    /// Whether a value has been written.
    pub fn is_set(&self) -> (set: bool)
        ensures
            set == (self@ is Some),
    {
        self.value.is_some()
    }

    /// Writes `value` if the slot is empty. A slot that is already written
    /// stays as it is and hands `value` back.
    pub fn set(&mut self, value: T) -> (outcome: Result<(), T>)
        ensures
            final(self)@ == Self::written(old(self)@, value),
            old(self)@ is None ==> outcome is Ok,
            old(self)@ is Some ==> outcome == Err::<(), T>(value),
        no_unwind
    {
        match &self.value {
            Some(_) => Err(value),
            None => {
                self.value = Some(value);
                Ok(())
            },
        }
    }

    /// The value, if one has been written.
    pub fn get(&self) -> (value: Option<&T>)
        ensures
            value is Some == self@ is Some,
            value matches Some(v) ==> *v == self@->0,
    {
        self.value.as_ref()
    }

    /// The value of a slot that is known to be written.
    pub fn value(&self) -> (value: &T)
        requires
            self@ is Some,
        ensures
            *value == self@->0,
    {
        self.value.as_ref().unwrap()
    }
}

/// A written slot ignores every later write.
pub proof fn lemma_first_write_wins<T>(before: Option<T>, first: T, second: T)
    ensures
        OnceSlot::<T>::written(OnceSlot::<T>::written(before, first), second)
            == OnceSlot::<T>::written(before, first),
        before is None ==> OnceSlot::<T>::written(before, first) == Some(first),
        before is Some ==> OnceSlot::<T>::written(before, first) == before,
{
}

} // verus!
