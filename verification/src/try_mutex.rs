//! The reduced exclusive lock: only the non-blocking probe.

use vstd::prelude::*;

verus! {

/// An exclusive lock over a value of type `T` that can only be probed, never
/// waited on.
///
/// The mechanism is the same flag-guarded cell as [`crate::Mutex`]: `held`
/// stands for the flag, and `slot` holds the protected value whenever no
/// guard is live. The one acquisition is the single-shot probe
/// [`TryMutex::try_lock`], for callers that never want to block. The two
/// locks are independent types with no shared base; only the pattern is
/// common.
pub struct TryMutex<T> {
    held: bool,
    slot: Option<T>,
}

/// A token witnessing one successful acquisition of a [`TryMutex`].
///
/// The guard owns the protected value for as long as the lock is held;
/// handing it back through [`TryMutex::unlock`] is the only release. A guard
/// that is discarded instead leaves its lock held forever, the fate of a
/// holder that never returns.
pub struct TryMutexGuard<T> {
    value: T,
}

impl<T> View for TryMutexGuard<T> {
    type V = T;

    /// The protected value as the guard currently holds it.
    closed spec fn view(&self) -> T {
        self.value
    }
}

impl<T> TryMutexGuard<T> {
    /// Read access to the protected value.
    pub fn read(&self) -> (r: &T)
        ensures
            *r == self@,
    {
        &self.value
    }

    /// Write access to the protected value. The write becomes visible to the
    /// next holder once the guard is handed back.
    pub fn write(&mut self, v: T)
        ensures
            final(self)@ == v,
    {
        self.value = v;
    }
}

impl<T> TryMutex<T> {
    /// The flag of the model: `true` exactly while a guard is live.
    pub closed spec fn is_locked(&self) -> bool {
        self.held
    }

    /// The value at rest in the lock; meaningful only while no guard is live.
    pub closed spec fn stored(&self) -> T
        recommends
            !self.is_locked(),
    {
        self.slot.unwrap()
    }

    /// The flag is set exactly while the value is out in a guard: at most one
    /// guard is live per lock at any instant.
    pub closed spec fn wf(&self) -> bool {
        self.held <==> self.slot is None
    }

    /// What a single probe of a lock in state `self` returns: a guard holding
    /// the stored value when the lock is free, nothing when it is held.
    pub closed spec fn probe_result(&self) -> Option<TryMutexGuard<T>> {
        if self.held {
            None
        } else {
            Some(TryMutexGuard { value: self.slot.unwrap() })
        }
    }

    /// The state a single probe leaves behind: locked after a grant,
    /// unchanged after a refusal.
    pub closed spec fn probe_post(&self) -> TryMutex<T> {
        if self.held {
            *self
        } else {
            TryMutex { held: true, slot: None }
        }
    }

    /// The state after a release with guard `g`: the flag clear, the slot
    /// holding the value the guard held.
    pub closed spec fn release_post(&self, g: TryMutexGuard<T>) -> TryMutex<T> {
        TryMutex { held: false, slot: Some(g@) }
    }

    /// Takes ownership of `value`; the new lock is free.
    pub fn new(value: T) -> (m: Self)
        ensures
            m.wf(),
            !m.is_locked(),
            m.stored() == value,
    {
        TryMutex { held: false, slot: Some(value) }
    }

    /// A single test-and-set attempt: grants a guard if the flag was clear
    /// (and sets it), returns nothing if the lock was already held. Never
    /// blocks, never loops.
    pub fn try_lock(&mut self) -> (r: Option<TryMutexGuard<T>>)
        requires
            old(self).wf(),
        ensures
            final(self).wf(),
            r == old(self).probe_result(),
            *final(self) == old(self).probe_post(),
            old(self).is_locked() ==> r is None && *final(self) == *old(self),
            !old(self).is_locked() ==> r is Some && final(self).is_locked(),
            r matches Some(g) ==> g@ == old(self).stored(),
    {
        if self.held {
            None
        } else {
            self.held = true;
            match self.slot.take() {
                Some(v) => Some(TryMutexGuard { value: v }),
                // excluded by `wf`: a free lock always stores the value
                None => None,
            }
        }
    }

    /// Hands a guard back: clears the flag and stores the guard's value, so
    /// the next acquisition observes every write made through the guard.
    /// This is the scope exit of a guard; release is unconditional.
    pub fn unlock(&mut self, guard: TryMutexGuard<T>)
        requires
            old(self).is_locked(),
        ensures
            final(self).wf(),
            !final(self).is_locked(),
            final(self).stored() == guard@,
            *final(self) == old(self).release_post(guard),
    {
        self.held = false;
        self.slot = Some(guard.value);
    }
}

/// Mutual exclusion: while a guard is live the probe grants no second guard,
/// and a grant sets the flag, so two probes in a row never both grant.
pub proof fn lemma_try_mutual_exclusion<T>(m: TryMutex<T>)
    ensures
        m.is_locked() ==> m.probe_result() is None,
        !m.is_locked() ==> m.probe_result() is Some,
        !m.is_locked() ==> m.probe_post().is_locked(),
        m.probe_post().probe_result() is None || m.probe_result() is None,
{
}

/// Try-probe correctness: the probe grants exactly when no guard is live; a
/// grant carries the stored value and locks the lock, a refusal changes
/// nothing.
pub proof fn lemma_try_probe_iff_free<T>(m: TryMutex<T>)
    requires
        m.wf(),
    ensures
        m.probe_result() is Some <==> !m.is_locked(),
        m.probe_result() matches Some(g) ==> g@ == m.stored(),
        m.probe_result() is None ==> m.probe_post() == m,
{
}

/// Release visibility and the handoff of writes: after a guard is handed
/// back, the very next probe is granted, and the guard it returns holds
/// exactly the value the released guard held — no write is lost between one
/// critical section and the next.
pub proof fn lemma_try_release_then_probe<T>(m: TryMutex<T>, g: TryMutexGuard<T>)
    ensures
        m.release_post(g).wf(),
        !m.release_post(g).is_locked(),
        m.release_post(g).stored() == g@,
        m.release_post(g).probe_result() == Some(g),
{
}

} // verus!
