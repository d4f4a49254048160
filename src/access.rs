//! Which contexts a bound cell admits, and what introspection shows otherwise.

use vstd::prelude::*;

verus! {

/// Why an access to a bound cell was refused.
#[derive(Clone, Copy, Debug, PartialEq, Eq, Structural)]
pub enum Denial {
    /// The caller is not the context the cell is bound to.
    OtherContext,
    /// The caller is not the context a singleton is bound to.
    OtherThreadContext,
    /// The caller runs an interrupt handler, which the cell forbids.
    InterruptContext,
    /// The caller's identifier lies beyond the declared number of contexts.
    UnknownContext,
}

/// A context-local cell admits its bound context, outside interrupt handlers.
pub open spec fn local_permits(bound: usize, context: usize, in_interrupt: bool) -> bool {
    context == bound && !in_interrupt
}

/// An interrupt cell admits its bound context, in or out of interrupt handlers.
pub open spec fn interrupt_permits(bound: usize, context: usize) -> bool {
    context == bound
}

/// The refusal a context-local cell bound to `bound` gives: identity is
/// checked first, then the interrupt state.
pub open spec fn check_local_spec(bound: usize, context: usize, in_interrupt: bool) -> Option<
    Denial,
> {
    if context != bound {
        Some(Denial::OtherContext)
    } else if in_interrupt {
        Some(Denial::InterruptContext)
    } else {
        None
    }
}

/// The refusal, if any, that a context-local cell bound to `bound` gives.
pub fn check_local(bound: usize, context: usize, in_interrupt: bool) -> (r: Option<Denial>)
    ensures
        r == check_local_spec(bound, context, in_interrupt),
        r.is_none() <==> local_permits(bound, context, in_interrupt),
{
    if context != bound {
        Some(Denial::OtherContext)
    } else if in_interrupt {
        Some(Denial::InterruptContext)
    } else {
        None
    }
}

/// The refusal, if any, that an interrupt cell bound to `bound` gives.
pub fn check_interrupt(bound: usize, context: usize) -> (r: Option<Denial>)
    ensures
        r.is_none() <==> interrupt_permits(bound, context),
        r.is_some() ==> r == Some(Denial::OtherContext),
{
    if context != bound {
        Some(Denial::OtherContext)
    } else {
        None
    }
}

/// The refusal a context-local singleton bound to `bound` gives: identity
/// is checked first, then the interrupt state.
pub open spec fn check_local_singleton_spec(bound: usize, context: usize, in_interrupt: bool) -> Option<
    Denial,
> {
    if context != bound {
        Some(Denial::OtherThreadContext)
    } else if in_interrupt {
        Some(Denial::InterruptContext)
    } else {
        None
    }
}

/// The refusal, if any, that a context-local singleton bound to `bound` gives.
pub fn check_local_singleton(bound: usize, context: usize, in_interrupt: bool) -> (r: Option<
    Denial,
>)
    ensures
        r == check_local_singleton_spec(bound, context, in_interrupt),
        r.is_none() <==> local_permits(bound, context, in_interrupt),
{
    if context != bound {
        Some(Denial::OtherThreadContext)
    } else if in_interrupt {
        Some(Denial::InterruptContext)
    } else {
        None
    }
}

/// The refusal, if any, that an interrupt singleton bound to `bound` gives.
pub fn check_interrupt_singleton(bound: usize, context: usize) -> (r: Option<Denial>)
    ensures
        r.is_none() <==> interrupt_permits(bound, context),
        r.is_some() ==> r == Some(Denial::OtherThreadContext),
{
    if context != bound {
        Some(Denial::OtherThreadContext)
    } else {
        None
    }
}

/// A per-context table with `capacity` slots admits every context whose
/// identifier has a slot, outside interrupt handlers.
pub open spec fn table_permits(capacity: nat, context: usize, in_interrupt: bool) -> bool {
    context < capacity && !in_interrupt
}

/// The refusal a per-context table with `capacity` slots gives: the
/// identifier is bounds-checked first, then the interrupt state.
pub open spec fn check_table_spec(capacity: nat, context: usize, in_interrupt: bool) -> Option<
    Denial,
> {
    if context >= capacity {
        Some(Denial::UnknownContext)
    } else if in_interrupt {
        Some(Denial::InterruptContext)
    } else {
        None
    }
}

/// The refusal, if any, that a per-context table with `capacity` slots gives.
pub fn check_table(capacity: usize, context: usize, in_interrupt: bool) -> (r: Option<Denial>)
    ensures
        r == check_table_spec(capacity as nat, context, in_interrupt),
        r.is_none() <==> table_permits(capacity as nat, context, in_interrupt),
{
    if context >= capacity {
        Some(Denial::UnknownContext)
    } else if in_interrupt {
        Some(Denial::InterruptContext)
    } else {
        None
    }
}

impl Denial {
    /// The opaque text that introspection shows in place of the value.
    pub fn placeholder(&self) -> (r: &'static str)
        ensures
            *self == Denial::OtherContext ==> r@ == "<opaque due to different thread>"@,
            *self == Denial::OtherThreadContext ==> r@ == "<opaque due to different thread context>"@,
            *self == Denial::InterruptContext ==> r@ == "<opaque due to interrupt context>"@,
            *self == Denial::UnknownContext ==> r@ == "<opaque due to unknown context>"@,
    {
        match self {
            Denial::OtherContext => "<opaque due to different thread>",
            Denial::OtherThreadContext => "<opaque due to different thread context>",
            Denial::InterruptContext => "<opaque due to interrupt context>",
            Denial::UnknownContext => "<opaque due to unknown context>",
        }
    }
}

/// What introspection of a cell yields: the accessor's result, or the reason
/// the value could not be looked at from the calling context.
pub enum Inspection<FR> {
    /// The access was permitted; this is what the accessor returned.
    Value(FR),
    /// The access was refused for this reason; the value was not touched.
    Opaque(Denial),
}

} // verus!
