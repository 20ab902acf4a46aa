//! The handoff between the polling bridge and its consumer: a single-slot
//! cell in which the latest published value wins.
use vstd::prelude::*;

verus! {

/// A single-slot "latest value" cell. Publishing overwrites whatever was
/// not yet taken, so memory stays bounded and a reader always gets the
/// freshest value.
pub struct Latest<T> {
    slot: Option<T>,
}

impl<T> View for Latest<T> {
    type V = Option<T>;

    closed spec fn view(&self) -> Option<T> {
        self.slot
    }
}

impl<T> Latest<T> {
    /// An empty cell.
    pub fn new() -> (r: Latest<T>)
        ensures
            r@ is None,
    {
        Latest { slot: None }
    }

    /// Stores `v`, replacing any value not yet taken.
    pub fn publish(&mut self, v: T)
        ensures
            final(self)@ == Some(v),
    {
        self.slot = Some(v);
    }

    /// Takes the stored value, if any, leaving the cell empty.
    pub fn take(&mut self) -> (r: Option<T>)
        ensures
            r == old(self)@,
            final(self)@ is None,
    {
        self.slot.take()
    }

    /// Empties the cell.
    pub fn clear(&mut self)
        ensures
            final(self)@ is None,
    {
        self.slot = None;
    }

    pub fn is_empty(&self) -> (r: bool)
        ensures
            r == (self@ is None),
    {
        self.slot.is_none()
    }
}

} // verus!
