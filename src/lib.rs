//! Statically allocated, lazily initialized cells for contexts that share one
//! address space: shared, context-local and interrupt-reachable tiers.

pub mod access;
pub mod interrupt;
pub mod lazy;
pub mod local;
pub mod runtime;
pub mod shared;

pub use crate::interrupt::{InterruptCell, InterruptSingleton};
pub use crate::lazy::LazyCell;
pub use crate::local::{LocalCell, LocalSingleton, LocalTable};
pub use crate::runtime::{Runtime, SimRuntime};
pub use crate::shared::{SharedCell, SharedSingleton};
