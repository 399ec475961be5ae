use vstd::prelude::*;

verus! {

/// Whether a collection is being fetched, and if not, whether it holds anything.
#[derive(Debug, Clone, Copy, PartialEq, Eq, Structural)]
pub enum CollectionState {
    Empty,
    NotEmpty,
    Pending,
}

impl Default for CollectionState {
    fn default() -> (r: CollectionState)
        ensures
            r == CollectionState::Empty,
    {
        CollectionState::Empty
    }
}

impl CollectionState {
    pub fn empty(&self) -> (r: bool)
        ensures
            r == (*self == CollectionState::Empty),
    {
        matches!(self, CollectionState::Empty)
    }

    pub fn empty_pending(&self) -> (r: bool)
        ensures
            r == (*self == CollectionState::Empty || *self == CollectionState::Pending),
    {
        matches!(self, CollectionState::Empty | CollectionState::Pending)
    }

    pub fn not_empty(&self) -> (r: bool)
        ensures
            r == (*self == CollectionState::NotEmpty),
    {
        matches!(self, CollectionState::NotEmpty)
    }

    pub fn not_empty_pending(&self) -> (r: bool)
        ensures
            r == (*self == CollectionState::NotEmpty || *self == CollectionState::Pending),
    {
        matches!(self, CollectionState::NotEmpty | CollectionState::Pending)
    }

    pub fn pending(&self) -> (r: bool)
        ensures
            r == (*self == CollectionState::Pending),
    {
        matches!(self, CollectionState::Pending)
    }
}

pub open spec fn spec_collection_state(pending: bool, empty: bool) -> CollectionState {
    if pending {
        CollectionState::Pending
    } else if empty {
        CollectionState::Empty
    } else {
        CollectionState::NotEmpty
    }
}

/// Pending while a fetch runs; otherwise empty or not by the collection.
pub fn collection_state(pending: bool, empty: bool) -> (r: CollectionState)
    ensures
        r == spec_collection_state(pending, empty),
{
    if pending {
        CollectionState::Pending
    } else if empty {
        CollectionState::Empty
    } else {
        CollectionState::NotEmpty
    }
}

/// Pending if either is pending, else not empty if either is not empty, else empty.
pub fn combine_collection_states_2(cs1: CollectionState, cs2: CollectionState) -> (r: CollectionState)
    ensures
        r == spec_collection_state(
            cs1 == CollectionState::Pending || cs2 == CollectionState::Pending,
            cs1 == CollectionState::Empty && cs2 == CollectionState::Empty,
        ),
{
    match (cs1, cs2) {
        (CollectionState::Pending, _) | (_, CollectionState::Pending) => CollectionState::Pending,
        (CollectionState::NotEmpty, _) | (_, CollectionState::NotEmpty) => CollectionState::NotEmpty,
        (CollectionState::Empty, CollectionState::Empty) => CollectionState::Empty,
    }
}

/// Pending if any is pending, else not empty if any is not empty, else empty.
pub fn combine_collection_states_3(cs1: CollectionState, cs2: CollectionState, cs3: CollectionState) -> (r:
    CollectionState)
    ensures
        r == spec_collection_state(
            cs1 == CollectionState::Pending || cs2 == CollectionState::Pending || cs3
                == CollectionState::Pending,
            cs1 == CollectionState::Empty && cs2 == CollectionState::Empty && cs3 == CollectionState::Empty,
        ),
{
    combine_collection_states_2(combine_collection_states_2(cs1, cs2), cs3)
}

} // verus!
