//! The lifecycle of a mutex-guarded native handle.
//!
//! Every wrapped native object is a shared, mutex-guarded opaque handle.
//! The binding layer owns the pointer, the lock and the shared-ownership
//! count; the decisions are made here: a null handle is never wrapped, a
//! call through a poisoned lock fails instead of running, and the native
//! delete entry point runs exactly once — or, when the final lock
//! acquisition finds the lock poisoned, not at all, leaking the native
//! resource rather than risking a double free.

use vstd::prelude::*;

use crate::error::TesseractError;

verus! {

/// The two phases of a wrapped native handle's life.
#[derive(Debug, Clone, Copy, PartialEq, Eq, Structural)]
pub enum HandleState {
    /// The native object is owned and usable for native calls.
    Valid,
    /// Teardown has run; no native call may use the handle again.
    Released,
}

/// The host-side lifecycle of one guarded handle.
#[derive(Debug, Clone, Copy, PartialEq, Eq, Structural)]
pub struct HandleLifecycle {
    /// The current phase.
    pub state: HandleState,
}

impl HandleLifecycle {
    /// Whether a teardown in this state, with the given lock outcome,
    /// runs the native delete entry point.
    pub open spec fn teardown_runs_delete(self, lock_poisoned: bool) -> bool {
        self.state is Valid && !lock_poisoned
    }

    /// The lifecycle after a teardown attempt: released, whatever happened.
    pub open spec fn after_teardown(self) -> HandleLifecycle {
        HandleLifecycle { state: HandleState::Released }
    }

    /// Wraps the result of a native constructor entry point: a null handle
    /// is rejected with the null-pointer error and nothing is wrapped; any
    /// other handle starts its life valid.
    pub fn wrap(handle_is_null: bool) -> (r: Result<HandleLifecycle, TesseractError>)
        ensures
            handle_is_null ==> r == Err::<HandleLifecycle, TesseractError>(
                TesseractError::NullPointerError,
            ),
            !handle_is_null ==> r == Ok::<HandleLifecycle, TesseractError>(
                HandleLifecycle { state: HandleState::Valid },
            ),
    {
        if handle_is_null {
            Err(TesseractError::NullPointerError)
        } else {
            Ok(HandleLifecycle { state: HandleState::Valid })
        }
    }

    /// Admits or refuses one native call through the guard.  Acquiring the
    /// lock can fail only because a prior holder exited abnormally while
    /// holding it; that outcome is surfaced as `on_poison` to the caller
    /// instead of corrupting anything, and the native call must not run.
    pub fn begin_call(&self, lock_poisoned: bool, on_poison: TesseractError) -> (r: Result<
        (),
        TesseractError,
    >)
        requires
            self.state is Valid,
        ensures
            r is Ok <==> !lock_poisoned,
            lock_poisoned ==> r == Err::<(), TesseractError>(on_poison),
    {
        if lock_poisoned {
            Err(on_poison)
        } else {
            Ok(())
        }
    }

    /// Decides the last-owner teardown.  The native delete entry point runs
    /// exactly when the handle is still valid and the final lock
    /// acquisition succeeded; a poisoned lock skips the release and leaks
    /// the native resource instead of risking a double free or a
    /// use-after-free.  Either way the handle ends released.
    pub fn teardown(&mut self, lock_poisoned: bool) -> (run_delete: bool)
        ensures
            *final(self) == old(self).after_teardown(),
            run_delete == old(self).teardown_runs_delete(lock_poisoned),
    {
        let run_delete = matches!(self.state, HandleState::Valid) && !lock_poisoned;
        self.state = HandleState::Released;
        run_delete
    }
}

/// The native delete entry point runs at most once per handle: whatever a
/// first teardown decided, a second teardown of the same handle never runs
/// delete again, however its lock acquisition went.
pub proof fn lemma_teardown_exactly_once(h: HandleLifecycle, lock_poisoned: bool)
    ensures
        !h.after_teardown().teardown_runs_delete(lock_poisoned),
{
}

} // verus!
