//! Cells usable from every context, guarded by a full critical section.

use vstd::prelude::*;
use crate::lazy::{access_slot, LazyCell};
use crate::runtime::{runtime_state, Runtime};

verus! {

/// A globally shared, lazily initialized singleton.
///
/// Every access runs under a critical section that excludes all other
/// contexts, so initialization and accessor bodies are strictly serialized.
pub struct SharedSingleton<T, I = fn() -> T> {
    pub(crate) inner: LazyCell<T, I>,
    pub(crate) window: Ghost<(usize, bool, bool, bool)>,
}

impl<T, I: FnOnce() -> T> SharedSingleton<T, I> {
    /// The lazy value inside.
    pub open(crate) spec fn lazy(&self) -> LazyCell<T, I> {
        self.inner
    }

    /// The runtime state (see `runtime_state`) in which the value was last
    /// accessed.
    pub open(crate) spec fn last_access(&self) -> (usize, bool, bool, bool) {
        self.window@
    }

    /// Creates a singleton whose value `init` builds on first access.
    pub fn new(init: I) -> (r: Self)
        ensures
            r.lazy().wf(),
            !r.lazy().is_initialized(),
            r.lazy().initializer() == Some(init),
    {
        SharedSingleton { inner: LazyCell::new(init), window: Ghost((0, false, false, false)) }
    }

    /// Runs `f` on the value inside a critical section, initializing the
    /// value first if needed; the runtime is left as it was found.
    pub fn scope<R: Runtime, FR, F: FnOnce(T) -> (T, FR)>(&mut self, rt: &mut R, f: F) -> (r: FR)
        requires
            old(self).lazy().wf(),
            old(self).lazy().can_access(f),
        ensures
            exists|seen: T|
                old(self).lazy().steps_to(&final(self).lazy(), seen) && f.ensures(
                    (seen,),
                    (final(self).lazy().value(), r),
                ),
            final(self).last_access().0 == old(rt).context_id(),
            final(self).last_access().1 == old(rt).in_interrupt(),
            final(self).last_access().2,
            runtime_state(&*final(rt)) == runtime_state(&*old(rt)),
    {
        let restore = rt.acquire_critical();
        let r = self.raw(&*rt, f);
        rt.release_critical(restore);
        r
    }

    /// Runs `f` on the value with no synchronization of its own: the caller
    /// is responsible for excluding every other access meanwhile. The access
    /// is recorded with the runtime state in which it happened.
    pub fn raw<R: Runtime, FR, F: FnOnce(T) -> (T, FR)>(&mut self, rt: &R, f: F) -> (r: FR)
        requires
            old(self).lazy().wf(),
            old(self).lazy().can_access(f),
        ensures
            exists|seen: T|
                old(self).lazy().steps_to(&final(self).lazy(), seen) && f.ensures(
                    (seen,),
                    (final(self).lazy().value(), r),
                ),
            final(self).last_access() == runtime_state(rt),
    {
        self.window = Ghost(runtime_state(rt));
        self.inner.scope(f)
    }
}

/// A cell usable from every context, holding a value given at construction.
pub struct SharedCell<T> {
    pub(crate) inner: Option<T>,
    pub(crate) window: Ghost<(usize, bool, bool, bool)>,
}

impl<T> SharedCell<T> {
    /// The cell holds its value.
    pub open(crate) spec fn wf(&self) -> bool {
        self.inner.is_some()
    }

    /// The value held.
    pub open(crate) spec fn value(&self) -> T {
        self.inner->Some_0
    }

    /// The runtime state (see `runtime_state`) in which the value was last
    /// accessed.
    pub open(crate) spec fn last_access(&self) -> (usize, bool, bool, bool) {
        self.window@
    }

    /// One access through `scope` took the cell from `self` to `post`: `f`
    /// was applied to the value `self` held, leaving the value `post` holds
    /// and returning `r`, inside a critical section.
    pub open(crate) spec fn applied<FR, F: FnOnce(T) -> (T, FR)>(
        &self,
        post: &Self,
        f: F,
        r: FR,
    ) -> bool {
        &&& post.wf()
        &&& f.ensures((self.value(),), (post.value(), r))
        &&& post.last_access().2
    }

    /// Creates a cell holding `value`.
    pub fn new(value: T) -> (r: Self)
        ensures
            r.wf(),
            r.value() == value,
    {
        SharedCell { inner: Some(value), window: Ghost((0, false, false, false)) }
    }

    /// Runs `f` on the value inside a critical section; the runtime is left
    /// as it was found.
    pub fn scope<R: Runtime, FR, F: FnOnce(T) -> (T, FR)>(&mut self, rt: &mut R, f: F) -> (r: FR)
        requires
            old(self).wf(),
            f.requires((old(self).value(),)),
        ensures
            old(self).applied(&*final(self), f, r),
            final(self).last_access().0 == old(rt).context_id(),
            final(self).last_access().1 == old(rt).in_interrupt(),
            runtime_state(&*final(rt)) == runtime_state(&*old(rt)),
    {
        let restore = rt.acquire_critical();
        let r = self.raw(&*rt, f);
        rt.release_critical(restore);
        r
    }

    /// Runs `f` on the value with no synchronization of its own: the caller
    /// is responsible for excluding every other access meanwhile. The access
    /// is recorded with the runtime state in which it happened.
    pub fn raw<R: Runtime, FR, F: FnOnce(T) -> (T, FR)>(&mut self, rt: &R, f: F) -> (r: FR)
        requires
            old(self).wf(),
            f.requires((old(self).value(),)),
        ensures
            final(self).wf(),
            f.ensures((old(self).value(),), (final(self).value(), r)),
            final(self).last_access() == runtime_state(rt),
    {
        self.window = Ghost(runtime_state(rt));
        access_slot(&mut self.inner, f)
    }
}

/// No update through `scope` is lost: each access applies its accessor to the
/// value the previous access left, inside a critical section, so when every
/// accessor adds one to a shared counter, from whichever contexts the accesses
/// come, `n` accesses raise the counter by exactly `n`.
pub proof fn lemma_no_lost_updates<FR, F: FnOnce(u64) -> (u64, FR)>(
    states: Seq<SharedCell<u64>>,
    accessors: Seq<F>,
    results: Seq<FR>,
)
    requires
        states.len() == accessors.len() + 1,
        results.len() == accessors.len(),
        states[0].wf(),
        forall|i: int|
            0 <= i < accessors.len() ==> #[trigger] states[i].applied(
                &states[i + 1],
                accessors[i],
                results[i],
            ),
        forall|i: int, v: u64, out: (u64, FR)|
            0 <= i < accessors.len() && #[trigger] accessors[i].ensures((v,), out) ==> out.0 == v
                + 1,
    ensures
        states.last().value() == states[0].value() + accessors.len(),
        forall|i: int| 1 <= i < states.len() ==> (#[trigger] states[i]).last_access().2,
    decreases accessors.len(),
{
    if accessors.len() > 0 {
        let n: int = accessors.len() - 1;
        let states_p = states.drop_last();
        let accessors_p = accessors.drop_last();
        let results_p = results.drop_last();
        assert forall|i: int| 0 <= i < accessors_p.len() implies #[trigger] states_p[i].applied(
            &states_p[i + 1],
            accessors_p[i],
            results_p[i],
        ) by {
            assert(states[i].applied(&states[i + 1], accessors[i], results[i]));
        }
        assert forall|i: int, v: u64, out: (u64, FR)|
            0 <= i < accessors_p.len() && #[trigger] accessors_p[i].ensures((v,), out) implies out.0
            == v + 1 by {
            assert(accessors[i].ensures((v,), out));
        }
        lemma_no_lost_updates(states_p, accessors_p, results_p);
        assert(states[n].applied(&states[n + 1], accessors[n], results[n]));
        assert(accessors[n].ensures(
            (states[n].value(),),
            (states[n + 1].value(), results[n]),
        ));
        assert forall|i: int| 1 <= i < states.len() implies (#[trigger] states[i]).last_access().2 by {
            if i < states.len() - 1 {
                assert(states_p[i] == states[i]);
            }
        }
    }
}

} // verus!
