//! Cells bound to one context whose own interrupt handlers may access them
//! too; each access masks that context's interrupts and nothing more.

use vstd::prelude::*;
use crate::access::{check_interrupt, check_interrupt_singleton, interrupt_permits, Denial, Inspection};
use crate::lazy::{access_slot, LazyCell};
use crate::runtime::{mask_local_interrupts, restore_local_interrupts, runtime_state, Runtime};

verus! {

/// A lazily initialized singleton bound to the context `THREAD_ID`, which
/// that context's interrupt handlers may access as well.
pub struct InterruptSingleton<T, const THREAD_ID: usize, I = fn() -> T> {
    pub(crate) inner: LazyCell<T, I>,
    pub(crate) window: Ghost<(usize, bool, bool, bool)>,
}

impl<T, const THREAD_ID: usize, I: FnOnce() -> T> InterruptSingleton<T, THREAD_ID, I> {
    /// The lazy value inside.
    pub open(crate) spec fn lazy(&self) -> LazyCell<T, I> {
        self.inner
    }

    /// The runtime state (see `runtime_state`) in which the value was last
    /// accessed.
    pub open(crate) spec fn last_access(&self) -> (usize, bool, bool, bool) {
        self.window@
    }

    /// Creates a singleton whose value `init` builds on first access.
    pub fn new(init: I) -> (r: Self)
        ensures
            r.lazy().wf(),
            !r.lazy().is_initialized(),
            r.lazy().initializer() == Some(init),
    {
        InterruptSingleton { inner: LazyCell::new(init), window: Ghost((0, false, false, false)) }
    }

    /// The context this singleton is bound to.
    pub fn thread_id(&self) -> (r: usize)
        ensures
            r == THREAD_ID,
    {
        THREAD_ID
    }

    /// Runs `f` on the value with the calling context's interrupts masked,
    /// initializing the value first if needed. The caller must be the bound
    /// context (a handler of it included). The prior interrupt state is
    /// restored afterwards.
    pub fn scope<R: Runtime, FR, F: FnOnce(T) -> (T, FR)>(&mut self, rt: &mut R, f: F) -> (r: FR)
        requires
            interrupt_permits(THREAD_ID, old(rt).context_id()),
            old(self).lazy().wf(),
            old(self).lazy().can_access(f),
        ensures
            exists|seen: T|
                old(self).lazy().steps_to(&final(self).lazy(), seen) && f.ensures(
                    (seen,),
                    (final(self).lazy().value(), r),
                ),
            final(self).last_access().0 == old(rt).context_id(),
            final(self).last_access().1 == old(rt).in_interrupt(),
            final(self).last_access().2 == old(rt).holds_critical(),
            final(self).last_access().3,
            runtime_state(&*final(rt)) == runtime_state(&*old(rt)),
    {
        let was_enabled = mask_local_interrupts(rt);
        let r = self.raw(&*rt, f);
        restore_local_interrupts(rt, was_enabled);
        r
    }

    /// Runs `f` on the value with no synchronization of its own: the caller
    /// is responsible for excluding every other access meanwhile. The access
    /// is recorded with the runtime state in which it happened.
    pub fn raw<R: Runtime, FR, F: FnOnce(T) -> (T, FR)>(&mut self, rt: &R, f: F) -> (r: FR)
        requires
            old(self).lazy().wf(),
            old(self).lazy().can_access(f),
        ensures
            exists|seen: T|
                old(self).lazy().steps_to(&final(self).lazy(), seen) && f.ensures(
                    (seen,),
                    (final(self).lazy().value(), r),
                ),
            final(self).last_access() == runtime_state(rt),
    {
        self.window = Ghost(runtime_state(rt));
        self.inner.scope(f)
    }

    /// Looks at the value through `f` if the calling context may access the
    /// singleton; otherwise reports why not, without touching the value.
    pub fn inspect<R: Runtime, FR, F: FnOnce(T) -> (T, FR)>(&mut self, rt: &mut R, f: F) -> (r:
        Inspection<FR>)
        requires
            old(self).lazy().wf(),
            old(self).lazy().can_access(f),
        ensures
            runtime_state(&*final(rt)) == runtime_state(&*old(rt)),
            match r {
                Inspection::Value(v) => interrupt_permits(THREAD_ID, old(rt).context_id())
                    && final(self).last_access().3 && final(self).last_access().2 == old(
                    rt,
                ).holds_critical() && exists|seen: T|
                    old(self).lazy().steps_to(&final(self).lazy(), seen) && f.ensures(
                        (seen,),
                        (final(self).lazy().value(), v),
                    ),
                Inspection::Opaque(d) => !interrupt_permits(THREAD_ID, old(rt).context_id())
                    && d == Denial::OtherThreadContext && *final(self) == *old(self),
            },
    {
        match check_interrupt_singleton(THREAD_ID, rt.current_context_id()) {
            Some(d) => Inspection::Opaque(d),
            None => Inspection::Value(self.scope(rt, f)),
        }
    }
}

/// A cell bound to one context, holding a value given at construction, which
/// that context's interrupt handlers may access as well.
pub struct InterruptCell<T> {
    pub(crate) inner: Option<T>,
    pub(crate) thread_id: usize,
    pub(crate) window: Ghost<(usize, bool, bool, bool)>,
}

impl<T> InterruptCell<T> {
    /// The cell holds its value.
    pub open(crate) spec fn wf(&self) -> bool {
        self.inner.is_some()
    }

    /// The value held.
    pub open(crate) spec fn value(&self) -> T {
        self.inner->Some_0
    }

    /// The context the cell is bound to.
    pub open(crate) spec fn bound(&self) -> usize {
        self.thread_id
    }

    /// The runtime state (see `runtime_state`) in which the value was last
    /// accessed.
    pub open(crate) spec fn last_access(&self) -> (usize, bool, bool, bool) {
        self.window@
    }

    /// Creates a cell holding `value`, bound to the context `thread_id`.
    pub fn new_with_threadid(value: T, thread_id: usize) -> (r: Self)
        ensures
            r.wf(),
            r.value() == value,
            r.bound() == thread_id,
    {
        InterruptCell { inner: Some(value), thread_id, window: Ghost((0, false, false, false)) }
    }

    /// Creates a cell holding `value`, bound to the calling context.
    pub fn new<R: Runtime>(value: T, rt: &R) -> (r: Self)
        ensures
            r.wf(),
            r.value() == value,
            r.bound() == rt.context_id(),
    {
        let thread_id = rt.current_context_id();
        Self::new_with_threadid(value, thread_id)
    }

    /// The context this cell is bound to.
    pub fn thread_id(&self) -> (r: usize)
        ensures
            r == self.bound(),
    {
        self.thread_id
    }

    /// Runs `f` on the value with the calling context's interrupts masked.
    /// The caller must be the bound context (a handler of it included). The
    /// prior interrupt state is restored afterwards.
    pub fn scope<R: Runtime, FR, F: FnOnce(T) -> (T, FR)>(&mut self, rt: &mut R, f: F) -> (r: FR)
        requires
            interrupt_permits(old(self).bound(), old(rt).context_id()),
            old(self).wf(),
            f.requires((old(self).value(),)),
        ensures
            final(self).wf(),
            final(self).bound() == old(self).bound(),
            f.ensures((old(self).value(),), (final(self).value(), r)),
            final(self).last_access().0 == old(rt).context_id(),
            final(self).last_access().1 == old(rt).in_interrupt(),
            final(self).last_access().2 == old(rt).holds_critical(),
            final(self).last_access().3,
            runtime_state(&*final(rt)) == runtime_state(&*old(rt)),
    {
        let was_enabled = mask_local_interrupts(rt);
        let r = self.raw(&*rt, f);
        restore_local_interrupts(rt, was_enabled);
        r
    }

    /// Runs `f` on the value with no synchronization of its own: the caller
    /// is responsible for excluding every other access meanwhile. The access
    /// is recorded with the runtime state in which it happened.
    pub fn raw<R: Runtime, FR, F: FnOnce(T) -> (T, FR)>(&mut self, rt: &R, f: F) -> (r: FR)
        requires
            old(self).wf(),
            f.requires((old(self).value(),)),
        ensures
            final(self).wf(),
            final(self).bound() == old(self).bound(),
            f.ensures((old(self).value(),), (final(self).value(), r)),
            final(self).last_access() == runtime_state(rt),
    {
        self.window = Ghost(runtime_state(rt));
        access_slot(&mut self.inner, f)
    }

    /// Looks at the value through `f` if the calling context may access the
    /// cell; otherwise reports why not, without touching the value.
    pub fn inspect<R: Runtime, FR, F: FnOnce(T) -> (T, FR)>(&mut self, rt: &mut R, f: F) -> (r:
        Inspection<FR>)
        requires
            old(self).wf(),
            f.requires((old(self).value(),)),
        ensures
            final(self).wf(),
            final(self).bound() == old(self).bound(),
            runtime_state(&*final(rt)) == runtime_state(&*old(rt)),
            match r {
                Inspection::Value(v) => interrupt_permits(old(self).bound(), old(rt).context_id())
                    && final(self).last_access().3 && final(self).last_access().2 == old(
                    rt,
                ).holds_critical() && f.ensures((old(self).value(),), (final(self).value(), v)),
                Inspection::Opaque(d) => !interrupt_permits(old(self).bound(), old(rt).context_id())
                    && d == Denial::OtherContext && *final(self) == *old(self),
            },
    {
        match check_interrupt(self.thread_id, rt.current_context_id()) {
            Some(d) => Inspection::Opaque(d),
            None => Inspection::Value(self.scope(rt, f)),
        }
    }
}

impl<T, I: FnOnce() -> T> InterruptCell<LazyCell<T, I>> {
    /// Runs `f` on the value of the lazy cell held here, building it first if
    /// needed, with the same checks and masking as `scope`.
    pub fn lazy_scope<R: Runtime, FR, F: FnOnce(T) -> (T, FR)>(&mut self, rt: &mut R, f: F) -> (r:
        FR)
        requires
            interrupt_permits(old(self).bound(), old(rt).context_id()),
            old(self).wf(),
            old(self).value().wf(),
            old(self).value().can_access(f),
        ensures
            final(self).wf(),
            final(self).bound() == old(self).bound(),
            exists|seen: T|
                old(self).value().steps_to(&final(self).value(), seen) && f.ensures(
                    (seen,),
                    (final(self).value().value(), r),
                ),
            final(self).last_access().0 == old(rt).context_id(),
            final(self).last_access().1 == old(rt).in_interrupt(),
            final(self).last_access().2 == old(rt).holds_critical(),
            final(self).last_access().3,
            runtime_state(&*final(rt)) == runtime_state(&*old(rt)),
    {
        let through = move |lazy: LazyCell<T, I>| -> (out: (LazyCell<T, I>, FR))
            requires
                lazy.wf(),
                lazy.can_access(f),
            ensures
                exists|seen: T|
                    lazy.steps_to(&out.0, seen) && f.ensures((seen,), (out.0.value(), out.1)),
            {
                let mut cell = lazy;
                let r = cell.scope_mut(f);
                let ghost seen = choose|seen: T|
                    lazy.steps_to(&cell, seen) && f.ensures((seen,), (cell.value(), r));
                let out = (cell, r);
                assert(lazy.steps_to(&out.0, seen) && f.ensures((seen,), (out.0.value(), out.1)));
                out
            };
        self.scope(rt, through)
    }
}

} // verus!
