//! The shared state cell: the one `AppState` of the device, guarded by a
//! verified reader-writer lock so that the interrupt-context reset producer,
//! the motion watcher and the renderer mutate it without races. Every write
//! back into the cell is checked against the lock's invariant, so no
//! interleaving of the contending tasks can ever make an ill-formed state
//! observable.

use crate::render;
use crate::render::RenderAction;
use crate::state::{AppResetMessage, AppState};
use vstd::prelude::*;
use vstd::rwlock::{RwLock, RwLockPredicate};

verus! {

/// The lock invariant of the shared cell: only well-formed states are ever
/// stored in it.
pub struct StateInvariant {}

impl RwLockPredicate<AppState> for StateInvariant {
    open spec fn inv(self, s: AppState) -> bool {
        s.wf()
    }
}

/// An exclusively-owned container for the one alarm state, handed by
/// reference to each task at construction time. All mutation goes through
/// its methods, each a short, bounded critical section, so state changes
/// from concurrent contexts are serialized.
pub struct SharedStateCell {
    lock: RwLock<AppState, StateInvariant>,
}

impl SharedStateCell {
    #[verifier::type_invariant]
    spec fn wf(self) -> bool {
        self.lock.pred() == (StateInvariant {})
    }

    /// A cell holding the startup state.
    pub fn new() -> SharedStateCell {
        SharedStateCell { lock: RwLock::new(AppState::new(), Ghost(StateInvariant {})) }
    }

    /// A snapshot of the current state. Whatever mutations race with this
    /// read, the value seen is well-formed.
    pub fn read(&self) -> (s: AppState)
        ensures
            s.wf(),
    {
        proof {
            use_type_invariant(self);
        }
        let handle = self.lock.acquire_read();
        let s = *handle.borrow();
        handle.release_read();
        s
    }

    /// Applies one reset signal under the origin-dependent conditional rule,
    /// atomically with respect to the other tasks.
    pub fn apply_reset_message(&self, message: AppResetMessage) {
        proof {
            use_type_invariant(self);
        }
        let (mut s, handle) = self.lock.acquire_write();
        s.apply_reset_message(message);
        handle.release_write(s);
    }

    /// Forces the state back to the baseline, atomically.
    pub fn reset(&self) {
        proof {
            use_type_invariant(self);
        }
        let (mut s, handle) = self.lock.acquire_write();
        s.reset();
        handle.release_write(s);
    }

    /// Applies one render tick atomically. Returns the state the tick found
    /// together with the waveform owed to it; the waveform always matches
    /// that observed state.
    pub fn render_tick(&self) -> (r: (AppState, RenderAction))
        ensures
            r.0.wf(),
            r.1 == render::spec_action(r.0),
    {
        proof {
            use_type_invariant(self);
        }
        let (mut s, handle) = self.lock.acquire_write();
        let observed = s;
        let action = render::render_tick(&mut s);
        handle.release_write(s);
        (observed, action)
    }
}

} // verus!
