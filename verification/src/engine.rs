//! The engine handle: exclusive access to the shared synthesis engine.
//!
//! The synthesis engine is mutated from two threads — the UI thread
//! (tempo and parameter edits, transport control, wholesale replacement
//! on project reload) and the production thread (advancing synthesis to
//! emit frames). Every such access must happen inside one critical
//! section of the same exclusive lock, and the lock must be released
//! before either thread blocks or suspends: the production thread waits
//! for demand events only outside it.
//!
//! The lock is a verified reader-writer lock from vstd, used here in
//! write mode only, so mutual exclusion between the two threads is
//! established by the lock's own proof rather than by convention. The
//! lock guards a single slot holding the current engine instance and the
//! last-known device sample rate: replacing the engine on project reload
//! is one slot write under the lock, never a partial field-by-field
//! mutation, and the slot's rate tells the caller what to reconfigure
//! the fresh engine to inside the same critical section, before the next
//! demand is processed.
//!
//! The engine's own operations are outside collaborators, so the engine
//! type is generic here: a caller acquires the slot, works on the engine
//! it holds, and releases the (possibly replaced) slot back.
//!
//! A verified lock has no poisoned state: the failure of acquiring a
//! lock poisoned by a panic in another critical section cannot arise
//! here, so the production thread never faces a possibly-inconsistent
//! engine slot.

use vstd::prelude::*;
use vstd::rwlock::{RwLock, WriteHandle};

verus! {

/// What the engine lock guards: the single current-engine slot.
pub struct EngineSlot<E> {
    /// The current engine instance; replaced wholesale on project
    /// reload.
    pub engine: E,
    /// The last sample rate adopted from the audio device. A freshly
    /// replaced engine must be reconfigured to this rate under the same
    /// lock acquisition that installed it.
    pub sample_rate: usize,
}

/// An exclusively locked slot holding the synthesis engine, shared by
/// the UI thread and the production thread for the life of the session.
#[verifier::reject_recursive_types(E)]
pub struct EngineHandle<E> {
    lock: RwLock<EngineSlot<E>, spec_fn(EngineSlot<E>) -> bool>,
}

impl<E> EngineHandle<E> {
    /// The lock accepts every slot value back: the engine's internal
    /// consistency is the engine's own affair, not the lock's.
    #[verifier::type_invariant]
    closed spec fn wf(&self) -> bool {
        forall|s: EngineSlot<E>| #[trigger] self.lock.inv(s)
    }

    /// Whether `guard` came from this handle's `acquire` and is the one
    /// owed back to `release`.
    pub closed spec fn is_guard_for(
        &self,
        guard: WriteHandle<EngineSlot<E>, spec_fn(EngineSlot<E>) -> bool>,
    ) -> bool {
        guard.rwlock() == self.lock
    }

    /// Makes a handle over a fresh engine instance. `sample_rate` is
    /// whatever the device last announced — zero before any device
    /// reset.
    pub fn new(engine: E, sample_rate: usize) -> (handle: Self) {
        let lock = RwLock::new(
            EngineSlot { engine, sample_rate },
            Ghost(|s: EngineSlot<E>| true),
        );
        EngineHandle { lock }
    }

    /// Takes the lock, suspending while another thread holds it, and
    /// hands out the slot together with the guard owed back to
    /// `release`. Between `acquire` and `release` the caller is the only
    /// thread that can touch the engine.
    pub fn acquire<'a>(&'a self) -> (r: (
        EngineSlot<E>,
        WriteHandle<'a, EngineSlot<E>, spec_fn(EngineSlot<E>) -> bool>,
    ))
        ensures
            self.is_guard_for(r.1),
    {
        proof {
            use_type_invariant(self);
        }
        self.lock.acquire_write()
    }

    /// Ends the critical section, installing `slot` — possibly with a
    /// wholesale-replaced engine or an updated sample rate — as the
    /// current slot in one atomic write. Must be called before the
    /// holding thread next blocks or suspends.
    pub fn release(
        &self,
        guard: WriteHandle<EngineSlot<E>, spec_fn(EngineSlot<E>) -> bool>,
        slot: EngineSlot<E>,
    )
        requires
            self.is_guard_for(guard),
    {
        proof {
            use_type_invariant(self);
        }
        guard.release_write(slot)
    }
}

} // verus!
