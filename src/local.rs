//! Cells bound to one context and never touched by interrupt handlers: no
//! locking at all, only an identity check.

use vstd::prelude::*;
use crate::access::{
    check_local, check_local_singleton, check_local_singleton_spec, check_local_spec, check_table, check_table_spec, local_permits, table_permits,
    Denial, Inspection,
};
use crate::lazy::{access_slot, LazyCell};
use crate::runtime::Runtime;

verus! {

/// A lazily initialized singleton bound to the context `THREAD_ID`.
///
/// It must only be accessed from that context and outside interrupt handlers.
pub struct LocalSingleton<T, const THREAD_ID: usize, I = fn() -> T> {
    pub(crate) inner: LazyCell<T, I>,
}

impl<T, const THREAD_ID: usize, I: FnOnce() -> T> LocalSingleton<T, THREAD_ID, I> {
    /// The lazy value inside.
    pub open(crate) spec fn lazy(&self) -> LazyCell<T, I> {
        self.inner
    }

    /// Creates a singleton whose value `init` builds on first access.
    pub fn new(init: I) -> (r: Self)
        ensures
            r.lazy().wf(),
            !r.lazy().is_initialized(),
            r.lazy().initializer() == Some(init),
    {
        LocalSingleton { inner: LazyCell::new(init) }
    }

    /// The context this singleton is bound to.
    pub fn thread_id(&self) -> (r: usize)
        ensures
            r == THREAD_ID,
    {
        THREAD_ID
    }

    /// Runs `f` on the value, initializing it first if needed. The caller
    /// must be the bound context, outside any interrupt handler.
    pub fn scope<R: Runtime, FR, F: FnOnce(T) -> (T, FR)>(&mut self, rt: &R, f: F) -> (r: FR)
        requires
            local_permits(THREAD_ID, rt.context_id(), rt.in_interrupt()),
            old(self).lazy().wf(),
            old(self).lazy().can_access(f),
        ensures
            exists|seen: T|
                old(self).lazy().steps_to(&final(self).lazy(), seen) && f.ensures(
                    (seen,),
                    (final(self).lazy().value(), r),
                ),
    {
        self.raw(f)
    }

    /// Runs `f` on the value with no check at all: the caller guarantees that
    /// no other context or handler touches the singleton meanwhile.
    pub fn raw<FR, F: FnOnce(T) -> (T, FR)>(&mut self, f: F) -> (r: FR)
        requires
            old(self).lazy().wf(),
            old(self).lazy().can_access(f),
        ensures
            exists|seen: T|
                old(self).lazy().steps_to(&final(self).lazy(), seen) && f.ensures(
                    (seen,),
                    (final(self).lazy().value(), r),
                ),
    {
        self.inner.scope(f)
    }

    /// Looks at the value through `f` if the calling context may access the
    /// singleton; otherwise reports why not, without touching the value.
    pub fn inspect<R: Runtime, FR, F: FnOnce(T) -> (T, FR)>(&mut self, rt: &R, f: F) -> (r:
        Inspection<FR>)
        requires
            old(self).lazy().wf(),
            old(self).lazy().can_access(f),
        ensures
            match r {
                Inspection::Value(v) => local_permits(THREAD_ID, rt.context_id(), rt.in_interrupt())
                    && exists|seen: T|
                    old(self).lazy().steps_to(&final(self).lazy(), seen) && f.ensures(
                        (seen,),
                        (final(self).lazy().value(), v),
                    ),
                Inspection::Opaque(d) => Some(d) == check_local_singleton_spec(
                    THREAD_ID,
                    rt.context_id(),
                    rt.in_interrupt(),
                ) && *final(self) == *old(self),
            },
    {
        match check_local_singleton(THREAD_ID, rt.current_context_id(), rt.is_interrupt_context()) {
            Some(d) => Inspection::Opaque(d),
            None => Inspection::Value(self.scope(rt, f)),
        }
    }
}

/// A cell bound to one context, holding a value given at construction.
///
/// It must only be accessed from that context and outside interrupt handlers.
pub struct LocalCell<T> {
    pub(crate) inner: Option<T>,
    pub(crate) thread_id: usize,
}

impl<T> LocalCell<T> {
    /// The cell holds its value.
    pub open(crate) spec fn wf(&self) -> bool {
        self.inner.is_some()
    }

    /// The value held.
    pub open(crate) spec fn value(&self) -> T {
        self.inner->Some_0
    }

    /// The context the cell is bound to.
    pub open(crate) spec fn bound(&self) -> usize {
        self.thread_id
    }

    /// Creates a cell holding `value`, bound to the context `thread_id`.
    pub fn new_with_threadid(value: T, thread_id: usize) -> (r: Self)
        ensures
            r.wf(),
            r.value() == value,
            r.bound() == thread_id,
    {
        LocalCell { inner: Some(value), thread_id }
    }

    /// Creates a cell holding `value`, bound to the calling context.
    pub fn new<R: Runtime>(value: T, rt: &R) -> (r: Self)
        ensures
            r.wf(),
            r.value() == value,
            r.bound() == rt.context_id(),
    {
        let thread_id = rt.current_context_id();
        Self::new_with_threadid(value, thread_id)
    }

    /// The context this cell is bound to.
    pub fn thread_id(&self) -> (r: usize)
        ensures
            r == self.bound(),
    {
        self.thread_id
    }

    /// Runs `f` on the value. The caller must be the bound context, outside
    /// any interrupt handler.
    pub fn scope<R: Runtime, FR, F: FnOnce(T) -> (T, FR)>(&mut self, rt: &R, f: F) -> (r: FR)
        requires
            local_permits(old(self).bound(), rt.context_id(), rt.in_interrupt()),
            old(self).wf(),
            f.requires((old(self).value(),)),
        ensures
            final(self).wf(),
            final(self).bound() == old(self).bound(),
            f.ensures((old(self).value(),), (final(self).value(), r)),
    {
        self.raw(f)
    }

    /// Runs `f` on the value with no check at all: the caller guarantees that
    /// no other context or handler touches the cell meanwhile.
    pub fn raw<FR, F: FnOnce(T) -> (T, FR)>(&mut self, f: F) -> (r: FR)
        requires
            old(self).wf(),
            f.requires((old(self).value(),)),
        ensures
            final(self).wf(),
            final(self).bound() == old(self).bound(),
            f.ensures((old(self).value(),), (final(self).value(), r)),
    {
        access_slot(&mut self.inner, f)
    }

    /// Looks at the value through `f` if the calling context may access the
    /// cell; otherwise reports why not, without touching the value.
    pub fn inspect<R: Runtime, FR, F: FnOnce(T) -> (T, FR)>(&mut self, rt: &R, f: F) -> (r:
        Inspection<FR>)
        requires
            old(self).wf(),
            f.requires((old(self).value(),)),
        ensures
            final(self).wf(),
            final(self).bound() == old(self).bound(),
            match r {
                Inspection::Value(v) => local_permits(
                    old(self).bound(),
                    rt.context_id(),
                    rt.in_interrupt(),
                ) && f.ensures((old(self).value(),), (final(self).value(), v)),
                Inspection::Opaque(d) => Some(d) == check_local_spec(
                    old(self).bound(),
                    rt.context_id(),
                    rt.in_interrupt(),
                ) && *final(self) == *old(self),
            },
    {
        match check_local(self.thread_id, rt.current_context_id(), rt.is_interrupt_context()) {
            Some(d) => Inspection::Opaque(d),
            None => Inspection::Value(self.scope(rt, f)),
        }
    }
}

/// One lazily built value per context, in a table sized by the declared
/// maximum number of contexts. Each context reaches only its own slot, by its
/// identifier, and never from an interrupt handler.
pub struct LocalTable<T, I> {
    pub(crate) slots: Vec<Option<T>>,
    pub(crate) init: I,
    pub(crate) init_calls: Ghost<Seq<nat>>,
}

impl<T, I: Fn() -> T> LocalTable<T, I> {
    /// Each slot is either empty or built, and its initializer calls match.
    pub open(crate) spec fn wf(&self) -> bool {
        &&& self.init_calls@.len() == self.slots@.len()
        &&& forall|i: int|
            0 <= i < self.slots@.len() ==> #[trigger] self.init_calls@[i] == if self.slots@[i].is_some() {
                1nat
            } else {
                0nat
            }
    }

    /// The declared maximum number of contexts.
    pub open(crate) spec fn capacity(&self) -> nat {
        self.slots@.len()
    }

    /// The initializer every slot is built with.
    pub open(crate) spec fn initializer(&self) -> I {
        self.init
    }

    /// The value of context `i`, once built.
    pub open(crate) spec fn slot(&self, i: int) -> Option<T> {
        self.slots@[i]
    }

    /// How many times the initializer has run for context `i`.
    pub open(crate) spec fn init_calls(&self, i: int) -> nat {
        self.init_calls@[i]
    }

    /// `v` may be handed to the next accessor of context `i`: its built value,
    /// or before that any value the initializer may produce.
    pub open(crate) spec fn may_hand_out(&self, i: int, v: T) -> bool {
        match self.slots@[i] {
            Some(x) => v == x,
            None => self.init.ensures((), v),
        }
    }

    /// The next access by context `i` may run.
    pub open(crate) spec fn can_access<FR, F: FnOnce(T) -> (T, FR)>(&self, i: int, f: F) -> bool {
        &&& (self.slots@[i].is_none() ==> self.init.requires(()))
        &&& forall|v: T| #[trigger] self.may_hand_out(i, v) ==> f.requires((v,))
    }

    /// Creates a table of `max_contexts` empty slots, each built by `init`
    /// on its context's first access.
    pub fn new(init: I, max_contexts: usize) -> (r: Self)
        ensures
            r.wf(),
            r.capacity() == max_contexts,
            r.initializer() == init,
            forall|i: int| 0 <= i < max_contexts ==> (#[trigger] r.slot(i)).is_none(),
    {
        let mut slots: Vec<Option<T>> = Vec::new();
        let mut k: usize = 0;
        while k < max_contexts
            invariant
                k <= max_contexts,
                slots@.len() == k,
                forall|i: int| 0 <= i < k ==> (#[trigger] slots@[i]).is_none(),
            decreases max_contexts - k,
        {
            slots.push(None);
            k = k + 1;
        }
        LocalTable { slots, init, init_calls: Ghost(Seq::new(max_contexts as nat, |i: int| 0nat)) }
    }

    /// The declared maximum number of contexts.
    pub fn max_contexts(&self) -> (r: usize)
        ensures
            r == self.capacity(),
    {
        self.slots.len()
    }

    /// Runs `f` on the calling context's own value, building it first if
    /// needed. The caller's identifier must have a slot, and the caller must
    /// not be an interrupt handler. Every other slot is left untouched.
    pub fn scope<R: Runtime, FR, F: FnOnce(T) -> (T, FR)>(&mut self, rt: &R, f: F) -> (r: FR)
        requires
            table_permits(old(self).capacity(), rt.context_id(), rt.in_interrupt()),
            old(self).wf(),
            old(self).can_access(rt.context_id() as int, f),
        ensures
            final(self).wf(),
            final(self).capacity() == old(self).capacity(),
            final(self).initializer() == old(self).initializer(),
            forall|j: int|
                0 <= j < old(self).capacity() && j != rt.context_id() ==> final(self).slot(j) == old(self).slot(j),
            final(self).slot(rt.context_id() as int).is_some(),
            final(self).init_calls(rt.context_id() as int) == 1,
            exists|seen: T|
                old(self).may_hand_out(rt.context_id() as int, seen) && f.ensures(
                    (seen,),
                    (final(self).slot(rt.context_id() as int)->Some_0, r),
                ),
    {
        let id = rt.current_context_id();
        let ghost ctx = id as int;
        if self.slots[id].is_none() {
            let produced = (self.init)();
            self.slots.set(id, Some(produced));
            self.init_calls = Ghost(self.init_calls@.update(ctx, 1nat));
        }
        let ghost seen = self.slots@[ctx]->Some_0;
        assert(old(self).may_hand_out(ctx, seen));
        let mut current: Option<T> = None;
        self.slots.set_and_swap(id, &mut current);
        let r = access_slot(&mut current, f);
        self.slots.set(id, current);
        r
    }

    /// Looks at the calling context's value through `f` if the context may
    /// access the table; otherwise reports why not, without touching it.
    pub fn inspect<R: Runtime, FR, F: FnOnce(T) -> (T, FR)>(&mut self, rt: &R, f: F) -> (r:
        Inspection<FR>)
        requires
            old(self).wf(),
            rt.context_id() < old(self).capacity() ==> old(self).can_access(
                rt.context_id() as int,
                f,
            ),
        ensures
            final(self).wf(),
            final(self).capacity() == old(self).capacity(),
            match r {
                Inspection::Value(v) => table_permits(
                    old(self).capacity(),
                    rt.context_id(),
                    rt.in_interrupt(),
                ) && exists|seen: T|
                    old(self).may_hand_out(rt.context_id() as int, seen) && f.ensures(
                        (seen,),
                        (final(self).slot(rt.context_id() as int)->Some_0, v),
                    ),
                Inspection::Opaque(d) => Some(d) == check_table_spec(
                    old(self).capacity(),
                    rt.context_id(),
                    rt.in_interrupt(),
                ) && *final(self) == *old(self),
            },
    {
        match check_table(self.slots.len(), rt.current_context_id(), rt.is_interrupt_context()) {
            Some(d) => Inspection::Opaque(d),
            None => Inspection::Value(self.scope(rt, f)),
        }
    }
}

} // verus!
