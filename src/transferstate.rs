use vstd::prelude::*;

use crate::statuscode::StatusCode;

verus! {

/// Lifecycle of the last fetch a store issued.
#[derive(Debug, Clone, Copy, PartialEq, Eq, Structural)]
pub enum TransferState {
    Empty,
    PendingLoad,
    PendingStore,
    Loaded(StatusCode),
    Stored(StatusCode),
}

/// One step of the fetch protocol on a transfer state.
pub enum TransferStep {
    StartLoad,
    StartStore,
    Stop(StatusCode),
}

impl TransferState {
    pub open spec fn spec_pending(self) -> bool {
        matches!(self, TransferState::PendingLoad | TransferState::PendingStore)
    }

    pub open spec fn spec_loaded(self) -> bool {
        match self {
            TransferState::Loaded(status) => status.spec_is_success(),
            _ => false,
        }
    }

    pub open spec fn spec_stored(self) -> bool {
        match self {
            TransferState::Stored(status) => status.spec_is_success(),
            _ => false,
        }
    }

    /// The state after a fetch finished with `status`.
    pub open spec fn spec_stop(self, status: StatusCode) -> TransferState {
        match self {
            TransferState::PendingLoad | TransferState::Loaded(_) => TransferState::Loaded(status),
            TransferState::PendingStore | TransferState::Stored(_) => TransferState::Stored(status),
            TransferState::Empty => TransferState::Loaded(StatusCode::FetchFailed),
        }
    }

    pub open spec fn spec_reset_error(self) -> TransferState {
        match self {
            TransferState::Loaded(_) => TransferState::Loaded(StatusCode::Okay),
            TransferState::Stored(_) => TransferState::Stored(StatusCode::Okay),
            _ => self,
        }
    }

    pub open spec fn spec_step(self, step: TransferStep) -> TransferState {
        match step {
            TransferStep::StartLoad => TransferState::PendingLoad,
            TransferStep::StartStore => TransferState::PendingStore,
            TransferStep::Stop(status) => self.spec_stop(status),
        }
    }

    /// A fetch is in flight.
    pub fn pending(&self) -> (r: bool)
        ensures
            r == self.spec_pending(),
    {
        matches!(self, TransferState::PendingLoad | TransferState::PendingStore)
    }

    /// The last fetch was a load that ended with a success code.
    pub fn loaded(&self) -> (r: bool)
        ensures
            r == self.spec_loaded(),
    {
        match self {
            TransferState::Loaded(status) => status.is_success(),
            _ => false,
        }
    }

    /// The code of a finished load, if the last fetch was one.
    pub fn loaded_status(&self) -> (r: Option<StatusCode>)
        ensures
            r == (match *self {
                TransferState::Loaded(status) => Some(status),
                _ => None,
            }),
    {
        match self {
            TransferState::Loaded(status) => Some(*status),
            _ => None,
        }
    }

    /// The last fetch was a store that ended with a success code.
    pub fn stored(&self) -> (r: bool)
        ensures
            r == self.spec_stored(),
    {
        match self {
            TransferState::Stored(status) => status.is_success(),
            _ => false,
        }
    }

    /// The code of a finished store, if the last fetch was one.
    pub fn stored_status(&self) -> (r: Option<StatusCode>)
        ensures
            r == (match *self {
                TransferState::Stored(status) => Some(status),
                _ => None,
            }),
    {
        match self {
            TransferState::Stored(status) => Some(*status),
            _ => None,
        }
    }

    /// No fetch has finished since the state was last emptied or started.
    pub fn not_completed(&self) -> (r: bool)
        ensures
            r == !(self is Loaded || self is Stored),
    {
        !matches!(self, TransferState::Loaded(_) | TransferState::Stored(_))
    }

    /// The last finished fetch, if any, did not end with a failure code.
    pub fn not_error(&self) -> (r: bool)
        ensures
            r == (match *self {
                TransferState::Loaded(status) | TransferState::Stored(status) => status.spec_is_success(),
                _ => true,
            }),
    {
        match self {
            TransferState::Loaded(status) | TransferState::Stored(status) => !status.is_failure(),
            _ => true,
        }
    }

    /// Clears a displayed failure without fetching again: a finished state
    /// gets the code Ok, any other state stays as it is.
    pub fn reset_error(&mut self)
        ensures
            *final(self) == old(self).spec_reset_error(),
    {
        *self = match *self {
            TransferState::Loaded(_) => TransferState::Loaded(StatusCode::Okay),
            TransferState::Stored(_) => TransferState::Stored(StatusCode::Okay),
            other => other,
        };
    }

    /// A load is about to be issued.
    pub fn start_load(&mut self)
        ensures
            *final(self) == TransferState::PendingLoad,
    {
        *self = TransferState::PendingLoad;
    }

    /// A store is about to be issued.
    pub fn start_store(&mut self)
        ensures
            *final(self) == TransferState::PendingStore,
    {
        *self = TransferState::PendingStore;
    }

    /// A fetch finished with `status`: the verb that was pending (or last
    /// finished) keeps its side; from `Empty` the state falls back to a
    /// failed load.
    pub fn stop(&mut self, status: StatusCode)
        ensures
            *final(self) == old(self).spec_stop(status),
    {
        *self = match *self {
            TransferState::PendingLoad | TransferState::Loaded(_) => TransferState::Loaded(status),
            TransferState::PendingStore | TransferState::Stored(_) => TransferState::Stored(status),
            TransferState::Empty => TransferState::Loaded(StatusCode::FetchFailed),
        };
    }
}

/// The state reached from `start` by the steps in order.
pub open spec fn run_steps(start: TransferState, steps: Seq<TransferStep>) -> TransferState
    decreases steps.len(),
{
    if steps.len() == 0 {
        start
    } else {
        run_steps(start, steps.drop_last()).spec_step(steps.last())
    }
}

/// Each stop follows the start of the fetch it ends.
pub open spec fn follows_protocol(steps: Seq<TransferStep>) -> bool {
    forall|i: int|
        0 <= i < steps.len() && (#[trigger] steps[i]) is Stop ==> i > 0 && !(steps[i - 1] is Stop)
}

/// The last start before the end of `steps` was a load.
pub open spec fn last_start_is_load(steps: Seq<TransferStep>) -> bool
    decreases steps.len(),
{
    if steps.len() == 0 {
        false
    } else if steps.last() is StartLoad {
        true
    } else if steps.last() is StartStore {
        false
    } else {
        last_start_is_load(steps.drop_last())
    }
}

/// For a protocol run that ends with a stop, `loaded()` holds exactly when
/// the verb that was started last was a load and the code it stopped with
/// is a success.
pub proof fn lemma_loaded_iff_last_load_succeeded(start: TransferState, steps: Seq<TransferStep>)
    requires
        follows_protocol(steps),
        steps.len() > 0,
        steps.last() is Stop,
    ensures
        run_steps(start, steps).spec_loaded() == (last_start_is_load(steps)
            && steps.last()->Stop_0.spec_is_success()),
{
    let n = steps.len() as int;
    assert(steps[n - 1] is Stop);
    let prefix = steps.drop_last();
    assert(prefix.last() == steps[n - 2]);
    assert(run_steps(start, steps) == run_steps(start, prefix).spec_step(steps.last()));
    assert(run_steps(start, prefix) == run_steps(start, prefix.drop_last()).spec_step(prefix.last()));
    assert(!(prefix.last() is Stop));
    assert(last_start_is_load(steps) == last_start_is_load(prefix));
    if prefix.last() is StartLoad {
        assert(last_start_is_load(prefix));
        assert(run_steps(start, prefix) == TransferState::PendingLoad);
    } else {
        assert(!last_start_is_load(prefix));
        assert(run_steps(start, prefix) == TransferState::PendingStore);
    }
}

/// `reset_error` turns any finished load into `Loaded(Ok)` and any finished
/// store into `Stored(Ok)`, and leaves empty and pending states alone.
pub proof fn lemma_reset_error(s: TransferState)
    ensures
        s is Loaded ==> s.spec_reset_error() == TransferState::Loaded(StatusCode::Okay),
        s is Stored ==> s.spec_reset_error() == TransferState::Stored(StatusCode::Okay),
        (s is Empty || s.spec_pending()) ==> s.spec_reset_error() == s,
{
}

} // verus!
