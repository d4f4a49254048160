//! A value built on first access by a stored initializer.

use vstd::prelude::*;

verus! {

/// A lazily instantiated value: it holds either the initializer or the value
/// the initializer produced, never both.
///
/// This type performs no synchronization: whoever calls `scope` must already
/// hold the exclusivity that the enclosing cell requires.
pub struct LazyCell<T, I = fn() -> T> {
    pub(crate) init: Option<I>,
    pub(crate) value: Option<T>,
    pub(crate) init_calls: Ghost<nat>,
}

impl<T, I: FnOnce() -> T> LazyCell<T, I> {
    /// Exactly one of initializer and value is present, and the initializer
    /// has run once precisely when the value is present.
    pub open(crate) spec fn wf(&self) -> bool {
        &&& self.init.is_some() != self.value.is_some()
        &&& self.init_calls@ == if self.value.is_some() { 1nat } else { 0nat }
    }

    /// Whether the value has been produced.
    pub open(crate) spec fn is_initialized(&self) -> bool {
        self.value.is_some()
    }

    /// The produced value (meaningful once initialized).
    pub open(crate) spec fn value(&self) -> T {
        self.value->Some_0
    }

    /// The initializer, while it has not run.
    pub open(crate) spec fn initializer(&self) -> Option<I> {
        self.init
    }

    /// How many times the initializer has been invoked.
    pub open(crate) spec fn init_calls(&self) -> nat {
        self.init_calls@
    }

    /// `v` is a value the next accessor may be handed: the stored value, or,
    /// before the first access, any value the initializer may produce.
    pub open(crate) spec fn may_hand_out(&self, v: T) -> bool {
        match self.value {
            Some(x) => v == x,
            None => self.init->Some_0.ensures((), v),
        }
    }

    /// The next access may run: the initializer's precondition holds if it is
    /// still to run, and the accessor accepts every value it may be handed.
    pub open(crate) spec fn can_access<FR, F: FnOnce(T) -> (T, FR)>(&self, f: F) -> bool {
        &&& (self.init.is_some() ==> self.init->Some_0.requires(()))
        &&& forall|v: T| #[trigger] self.may_hand_out(v) ==> f.requires((v,))
    }

    /// One access took the cell from `self` to `post`, handing `seen` to the
    /// accessor: the value is in place, and the initializer ran once in all.
    pub open(crate) spec fn steps_to(&self, post: &Self, seen: T) -> bool {
        &&& self.may_hand_out(seen)
        &&& post.wf()
        &&& post.is_initialized()
        &&& post.init_calls() == 1
    }

    /// Creates a lazy cell that will build its value with `init`.
    pub fn new(init: I) -> (r: Self)
        ensures
            r.wf(),
            !r.is_initialized(),
            r.initializer() == Some(init),
            r.init_calls() == 0,
    {
        LazyCell { init: Some(init), value: None, init_calls: Ghost(0) }
    }

    /// Runs the initializer if it has not run yet, then hands the value to
    /// `f`, stores the value `f` hands back and returns `f`'s result.
    pub fn scope<FR, F: FnOnce(T) -> (T, FR)>(&mut self, f: F) -> (r: FR)
        requires
            old(self).wf(),
            old(self).can_access(f),
        ensures
            exists|seen: T|
                old(self).steps_to(&*final(self), seen) && f.ensures(
                    (seen,),
                    (final(self).value(), r),
                ),
            final(self).initializer().is_none(),
    {
        if self.init.is_some() {
            let init = self.init.take().unwrap();
            let produced = init();
            self.value = Some(produced);
            self.init_calls = Ghost(self.init_calls@ + 1);
        }
        let ghost seen = self.value->Some_0;
        assert(old(self).may_hand_out(seen));
        let r = access_slot(&mut self.value, f);
        assert(old(self).steps_to(&*self, seen));
        r
    }

    /// The same as `scope`; kept for callers that name the mutable access.
    pub fn scope_mut<FR, F: FnOnce(T) -> (T, FR)>(&mut self, f: F) -> (r: FR)
        requires
            old(self).wf(),
            old(self).can_access(f),
        ensures
            exists|seen: T|
                old(self).steps_to(&*final(self), seen) && f.ensures(
                    (seen,),
                    (final(self).value(), r),
                ),
            final(self).initializer().is_none(),
    {
        self.scope(f)
    }
}

/// Over any run of accesses that starts on a fresh cell, the initializer has
/// run exactly once after each access, and every access after the first is
/// handed the very value that the access before it left in place, never a
/// freshly built one.
pub proof fn lemma_initializer_runs_once<T, I: FnOnce() -> T>(
    states: Seq<LazyCell<T, I>>,
    seen: Seq<T>,
)
    requires
        seen.len() >= 1,
        states.len() == seen.len() + 1,
        states[0].wf(),
        !states[0].is_initialized(),
        forall|i: int| 0 <= i < seen.len() ==> #[trigger] states[i].steps_to(&states[i + 1], seen[i]),
    ensures
        states[0].initializer()->Some_0.ensures((), seen[0]),
        forall|i: int| 1 <= i < states.len() ==> (#[trigger] states[i]).init_calls() == 1,
        forall|i: int| 1 <= i < states.len() ==> (#[trigger] states[i]).is_initialized(),
        forall|i: int| 1 <= i < seen.len() ==> #[trigger] seen[i] == states[i].value(),
{
    let zero: int = 0;
    assert(states[zero].steps_to(&states[zero + 1], seen[zero]));
    assert forall|i: int| 1 <= i < states.len() implies (#[trigger] states[i]).init_calls() == 1
        && states[i].is_initialized() by {
        assert(states[i - 1].steps_to(&states[(i - 1) + 1], seen[i - 1]));
    }
    assert forall|i: int| 1 <= i < seen.len() implies #[trigger] seen[i] == states[i].value() by {
        assert(states[i - 1].steps_to(&states[(i - 1) + 1], seen[i - 1]));
        assert(states[i].steps_to(&states[i + 1], seen[i]));
    }
}

/// Moves the value out of `slot`, hands it to `f` and puts back the value
/// `f` returns; `f`'s own result is passed on.
pub(crate) fn access_slot<T, FR, F: FnOnce(T) -> (T, FR)>(slot: &mut Option<T>, f: F) -> (r: FR)
    requires
        old(slot).is_some(),
        f.requires((old(slot)->Some_0,)),
    ensures
        final(slot).is_some(),
        f.ensures((old(slot)->Some_0,), (final(slot)->Some_0, r)),
{
    let current = slot.take().unwrap();
    let (next, r) = f(current);
    *slot = Some(next);
    r
}

} // verus!
