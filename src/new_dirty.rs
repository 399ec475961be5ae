use vstd::prelude::*;

verus! {

/// Entities that know whether they exist on the server yet.
pub trait New {
    fn is_new(&self) -> bool;

    fn with_new(self) -> Self where Self: Sized;

    fn with_existing(self) -> Self where Self: Sized;
}

/// Entities that track unsaved local changes.
pub trait Dirty {
    fn is_dirty(&self) -> bool;

    fn take_dirty(&mut self) -> bool;

    fn with_dirty(self) -> Self where Self: Sized;

    fn mark_as_dirty(&mut self);
}

} // verus!
