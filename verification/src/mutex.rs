//! The full exclusive lock: four acquisition strategies and a scoped guard.

use vstd::prelude::*;

verus! {

/// An exclusive lock over a value of type `T`.
///
/// The lock is a sequential model of a flag-guarded cell: `held` stands for
/// the boolean flag (`true` while a guard is live), and `slot` holds the
/// protected value whenever no guard is live. A successful acquisition sets
/// the flag and moves the value into the returned [`MutexGuard`]; handing the
/// guard back through [`Mutex::unlock`] clears the flag and stores the
/// guard's value, so the next holder observes every write made through the
/// guard. Every operation takes the lock by exclusive reference, which is how
/// a sequential model expresses that the steps of the protocol are atomic.
pub struct Mutex<T> {
    held: bool,
    slot: Option<T>,
}

/// A token witnessing one successful acquisition of a [`Mutex`].
///
/// The guard owns the protected value for as long as the lock is held:
/// [`MutexGuard::read`] and [`MutexGuard::write`] are the only access to the
/// value while it is locked. Handing the guard back through
/// [`Mutex::unlock`] is the only release; a guard that is discarded instead
/// leaves its lock held forever, the fate of a holder that never returns.
pub struct MutexGuard<T> {
    value: T,
}

impl<T> View for MutexGuard<T> {
    type V = T;

    /// The protected value as the guard currently holds it.
    closed spec fn view(&self) -> T {
        self.value
    }
}

impl<T> MutexGuard<T> {
    /// Read access to the protected value.
    pub fn read(&self) -> (r: &T)
        ensures
            *r == self@,
    {
        &self.value
    }

    /// Write access to the protected value. The write becomes visible to the
    /// next holder once the guard is handed back.
    pub fn write(&mut self, v: T)
        ensures
            final(self)@ == v,
    {
        self.value = v;
    }
}

impl<T> Mutex<T> {
    /// The flag of the model: `true` exactly while a guard is live.
    pub closed spec fn is_locked(&self) -> bool {
        self.held
    }

    /// The value at rest in the lock; meaningful only while no guard is live.
    pub closed spec fn stored(&self) -> T
        recommends
            !self.is_locked(),
    {
        self.slot.unwrap()
    }

    /// The flag is set exactly while the value is out in a guard: at most one
    /// guard is live per lock at any instant.
    pub closed spec fn wf(&self) -> bool {
        self.held <==> self.slot is None
    }

    /// What a single probe of a lock in state `self` returns: a guard holding
    /// the stored value when the lock is free, nothing when it is held.
    pub closed spec fn probe_result(&self) -> Option<MutexGuard<T>> {
        if self.held {
            None
        } else {
            Some(MutexGuard { value: self.slot.unwrap() })
        }
    }

    /// The state a single probe leaves behind: locked after a grant,
    /// unchanged after a refusal.
    pub closed spec fn probe_post(&self) -> Mutex<T> {
        if self.held {
            *self
        } else {
            self.acquire_post()
        }
    }

    /// The guard granted by a successful acquisition: it holds the value that
    /// was at rest in the lock.
    pub closed spec fn acquire_guard(&self) -> MutexGuard<T>
        recommends
            !self.is_locked(),
    {
        MutexGuard { value: self.slot.unwrap() }
    }

    /// The state after a successful acquisition: the flag set, the slot
    /// empty.
    pub closed spec fn acquire_post(&self) -> Mutex<T> {
        Mutex { held: true, slot: None }
    }

    /// The state after a release with guard `g`: the flag clear, the slot
    /// holding the value the guard held.
    pub closed spec fn release_post(&self, g: MutexGuard<T>) -> Mutex<T> {
        Mutex { held: false, slot: Some(g@) }
    }

    /// Takes ownership of `value`; the new lock is free.
    pub fn new(value: T) -> (m: Self)
        ensures
            m.wf(),
            !m.is_locked(),
            m.stored() == value,
    {
        Mutex { held: false, slot: Some(value) }
    }

    /// A single test-and-set attempt: grants a guard if the flag was clear
    /// (and sets it), returns nothing if the lock was already held. Never
    /// blocks, never loops.
    pub fn try_lock(&mut self) -> (r: Option<MutexGuard<T>>)
        requires
            old(self).wf(),
        ensures
            final(self).wf(),
            r == old(self).probe_result(),
            *final(self) == old(self).probe_post(),
            old(self).is_locked() ==> r is None && *final(self) == *old(self),
            !old(self).is_locked() ==> r == Some(old(self).acquire_guard())
                && final(self).is_locked(),
            r matches Some(g) ==> g@ == old(self).stored(),
    {
        if self.held {
            None
        } else {
            self.held = true;
            match self.slot.take() {
                Some(v) => Some(MutexGuard { value: v }),
                // excluded by `wf`: a free lock always stores the value
                None => None,
            }
        }
    }

    /// Busy-spin acquisition: probes the flag over and over, with no pause
    /// between failed attempts, until a probe is granted.
    ///
    /// In the sequential model no other holder can release while this call
    /// runs, so probing a held lock would never return; the lock is therefore
    /// required to be free, and the first probe is the one that is granted.
    pub fn spin_lock(&mut self) -> (g: MutexGuard<T>)
        requires
            old(self).wf(),
            !old(self).is_locked(),
        ensures
            final(self).wf(),
            g == old(self).acquire_guard(),
            g@ == old(self).stored(),
            final(self).is_locked(),
            *final(self) == old(self).acquire_post(),
    {
        loop
            invariant
                self.wf(),
                !self.is_locked(),
                *self == *old(self),
            decreases 0nat,
        {
            match self.try_lock() {
                Some(g) => {
                    return g;
                },
                None => {
                    // a free lock always grants the probe
                    proof {
                        assert(false);
                    }
                },
            }
        }
    }

    /// Yielding acquisition: the same probe loop as [`Mutex::spin_lock`], but
    /// a failed attempt gives up the rest of the caller's scheduling slot
    /// before retrying. The outcome is that of `spin_lock`; only the waiting
    /// cost differs, and the model has no scheduler to charge it to.
    pub fn yield_lock(&mut self) -> (g: MutexGuard<T>)
        requires
            old(self).wf(),
            !old(self).is_locked(),
        ensures
            final(self).wf(),
            g == old(self).acquire_guard(),
            g@ == old(self).stored(),
            final(self).is_locked(),
            *final(self) == old(self).acquire_post(),
    {
        loop
            invariant
                self.wf(),
                !self.is_locked(),
                *self == *old(self),
            decreases 0nat,
        {
            match self.try_lock() {
                Some(g) => {
                    return g;
                },
                None => {
                    // a free lock always grants the probe
                    proof {
                        assert(false);
                    }
                },
            }
        }
    }

    /// Backed-off acquisition: the same probe loop as [`Mutex::spin_lock`],
    /// but a failed attempt sleeps for the next interval of the doubling
    /// schedule of [`crate::Backoff`] (1 ms, 2 ms, 4 ms, ...) before
    /// retrying. The outcome is that of `spin_lock`; only the waiting cost
    /// differs, and the model has no clock to charge it to.
    pub fn exp_backoff_lock(&mut self) -> (g: MutexGuard<T>)
        requires
            old(self).wf(),
            !old(self).is_locked(),
        ensures
            final(self).wf(),
            g == old(self).acquire_guard(),
            g@ == old(self).stored(),
            final(self).is_locked(),
            *final(self) == old(self).acquire_post(),
    {
        loop
            invariant
                self.wf(),
                !self.is_locked(),
                *self == *old(self),
            decreases 0nat,
        {
            match self.try_lock() {
                Some(g) => {
                    return g;
                },
                None => {
                    // a free lock always grants the probe
                    proof {
                        assert(false);
                    }
                },
            }
        }
    }

    /// Hands a guard back: clears the flag and stores the guard's value, so
    /// the next acquisition observes every write made through the guard.
    /// This is the scope exit of a guard; release is unconditional.
    pub fn unlock(&mut self, guard: MutexGuard<T>)
        requires
            old(self).is_locked(),
        ensures
            final(self).wf(),
            !final(self).is_locked(),
            final(self).stored() == guard@,
            *final(self) == old(self).release_post(guard),
    {
        self.held = false;
        self.slot = Some(guard.value);
    }
}

/// Mutual exclusion: while a guard is live the probe grants no second guard,
/// and a grant sets the flag, so two probes in a row never both grant.
pub proof fn lemma_mutual_exclusion<T>(m: Mutex<T>)
    ensures
        m.is_locked() ==> m.probe_result() is None,
        !m.is_locked() ==> m.probe_result() is Some,
        !m.is_locked() ==> m.probe_post().is_locked(),
        m.probe_post().probe_result() is None || m.probe_result() is None,
{
}

/// Try-probe correctness: the probe grants exactly when no guard is live; a
/// grant carries the stored value and locks the lock, a refusal changes
/// nothing.
pub proof fn lemma_probe_iff_free<T>(m: Mutex<T>)
    requires
        m.wf(),
    ensures
        m.probe_result() is Some <==> !m.is_locked(),
        m.probe_result() matches Some(g) ==> g@ == m.stored(),
        m.probe_result() is Some ==> m.probe_post() == m.acquire_post(),
        m.probe_result() is None ==> m.probe_post() == m,
{
}

/// Release visibility and the handoff of writes: after a guard is handed
/// back, the very next probe is granted, and the guard it returns holds
/// exactly the value the released guard held — no write is lost between one
/// critical section and the next.
pub proof fn lemma_release_then_probe<T>(m: Mutex<T>, g: MutexGuard<T>)
    ensures
        m.release_post(g).wf(),
        !m.release_post(g).is_locked(),
        m.release_post(g).stored() == g@,
        m.release_post(g).probe_result() == Some(g),
{
}

/// Strategy equivalence: on a free lock, every blocking strategy returns the
/// guard and leaves the state of a successful probe — the strategies are
/// interchangeable in outcome and differ only in waiting cost.
pub proof fn lemma_strategies_equal_probe<T>(m: Mutex<T>)
    requires
        m.wf(),
        !m.is_locked(),
    ensures
        m.probe_result() == Some(m.acquire_guard()),
        m.probe_post() == m.acquire_post(),
{
}

} // verus!
