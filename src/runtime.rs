//! The platform contract that every cell relies on, and a simulated platform.

use vstd::prelude::*;

verus! {

/// What leaving a critical section must restore.
#[derive(Clone, Copy, Debug, PartialEq, Eq, Structural)]
pub struct CriticalRestore {
    /// A critical section was already held (the new one is nested).
    pub was_held: bool,
    /// Interrupts of the calling context were masked before.
    pub was_masked: bool,
}

/// The four platform primitives the cells are built on, split into the steps
/// that open and close an exclusive window.
///
/// A platform adapter implements this trait; the cells only ever observe the
/// platform through it.
pub trait Runtime {
    /// Identifier of the calling context (core index or equivalent).
    spec fn context_id(&self) -> usize;

    /// Whether the calling context is currently running an interrupt handler.
    spec fn in_interrupt(&self) -> bool;

    /// Whether a full cross-context critical section is currently held.
    spec fn holds_critical(&self) -> bool;

    /// Whether interrupts of the calling context are currently masked.
    spec fn interrupts_masked(&self) -> bool;

    /// Stable identity of the calling context.
    fn current_context_id(&self) -> (r: usize)
        ensures
            r == self.context_id(),
    ;

    /// True iff the call happens inside an interrupt handler.
    fn is_interrupt_context(&self) -> (r: bool)
        ensures
            r == self.in_interrupt(),
    ;

    /// Enters a critical section that excludes every other context. The
    /// platform may mask interrupts to do so; the result records what
    /// `release_critical` must restore.
    fn acquire_critical(&mut self) -> (restore: CriticalRestore)
        ensures
            final(self).holds_critical(),
            restore.was_held == old(self).holds_critical(),
            restore.was_masked == old(self).interrupts_masked(),
            final(self).context_id() == old(self).context_id(),
            final(self).in_interrupt() == old(self).in_interrupt(),
    ;

    /// Leaves the critical section entered by the matching `acquire_critical`,
    /// restoring whether a critical section was held and the interrupt mask
    /// in place before it.
    fn release_critical(&mut self, restore: CriticalRestore)
        requires
            old(self).holds_critical(),
        ensures
            final(self).holds_critical() == restore.was_held,
            final(self).interrupts_masked() == restore.was_masked,
            final(self).context_id() == old(self).context_id(),
            final(self).in_interrupt() == old(self).in_interrupt(),
    ;

    /// Whether interrupts of the calling context are enabled.
    fn interrupts_enabled(&self) -> (r: bool)
        ensures
            r == !self.interrupts_masked(),
    ;

    /// Masks the interrupts of the calling context only.
    fn disable_interrupts(&mut self)
        ensures
            final(self).interrupts_masked(),
            final(self).holds_critical() == old(self).holds_critical(),
            final(self).context_id() == old(self).context_id(),
            final(self).in_interrupt() == old(self).in_interrupt(),
    ;

    /// Unmasks the interrupts of the calling context only.
    fn enable_interrupts(&mut self)
        ensures
            !final(self).interrupts_masked(),
            final(self).holds_critical() == old(self).holds_critical(),
            final(self).context_id() == old(self).context_id(),
            final(self).in_interrupt() == old(self).in_interrupt(),
    ;
}

/// Everything a cell can observe of a runtime, as one value.
pub open spec fn runtime_state<R: Runtime>(rt: &R) -> (usize, bool, bool, bool) {
    (rt.context_id(), rt.in_interrupt(), rt.holds_critical(), rt.interrupts_masked())
}

/// Masks the calling context's interrupts and reports whether they were
/// enabled before; other contexts are not affected.
pub fn mask_local_interrupts<R: Runtime>(rt: &mut R) -> (was_enabled: bool)
    ensures
        final(rt).interrupts_masked(),
        was_enabled == !old(rt).interrupts_masked(),
        final(rt).holds_critical() == old(rt).holds_critical(),
        final(rt).context_id() == old(rt).context_id(),
        final(rt).in_interrupt() == old(rt).in_interrupt(),
{
    let was_enabled = rt.interrupts_enabled();
    rt.disable_interrupts();
    was_enabled
}

/// Restores the interrupt state that `mask_local_interrupts` reported, so
/// that masked windows nest: only the outermost one enables interrupts again.
pub fn restore_local_interrupts<R: Runtime>(rt: &mut R, was_enabled: bool)
    requires
        old(rt).interrupts_masked(),
    ensures
        final(rt).interrupts_masked() == !was_enabled,
        final(rt).holds_critical() == old(rt).holds_critical(),
        final(rt).context_id() == old(rt).context_id(),
        final(rt).in_interrupt() == old(rt).in_interrupt(),
{
    if was_enabled {
        rt.enable_interrupts();
    }
}

/// A platform simulated in memory: the context and interrupt state are plain
/// fields that a host program (or a test harness) sets between accesses. Like
/// a single-core platform, it masks interrupts for a critical section.
pub struct SimRuntime {
    pub context: usize,
    pub interrupt: bool,
    pub critical: bool,
    pub masked: bool,
}

impl SimRuntime {
    /// A simulated context `context`, outside any handler, with interrupts enabled.
    pub fn new(context: usize) -> (r: SimRuntime)
        ensures
            r.context == context,
            !r.interrupt,
            !r.critical,
            !r.masked,
    {
        SimRuntime { context, interrupt: false, critical: false, masked: false }
    }

    /// Switches the simulated caller to another context.
    pub fn switch_to(&mut self, context: usize, interrupt: bool)
        ensures
            final(self).context == context,
            final(self).interrupt == interrupt,
            final(self).critical == old(self).critical,
            final(self).masked == old(self).masked,
    {
        self.context = context;
        self.interrupt = interrupt;
    }
}

impl Runtime for SimRuntime {
    open spec fn context_id(&self) -> usize {
        self.context
    }

    open spec fn in_interrupt(&self) -> bool {
        self.interrupt
    }

    open spec fn holds_critical(&self) -> bool {
        self.critical
    }

    open spec fn interrupts_masked(&self) -> bool {
        self.masked
    }

    fn current_context_id(&self) -> (r: usize) {
        self.context
    }

    fn is_interrupt_context(&self) -> (r: bool) {
        self.interrupt
    }

    fn acquire_critical(&mut self) -> (restore: CriticalRestore) {
        let restore = CriticalRestore { was_held: self.critical, was_masked: self.masked };
        self.critical = true;
        self.masked = true;
        restore
    }

    fn release_critical(&mut self, restore: CriticalRestore) {
        self.critical = restore.was_held;
        self.masked = restore.was_masked;
    }

    fn interrupts_enabled(&self) -> (r: bool) {
        !self.masked
    }

    fn disable_interrupts(&mut self) {
        self.masked = true;
    }

    fn enable_interrupts(&mut self) {
        self.masked = false;
    }
}

} // verus!
