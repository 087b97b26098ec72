//! Memory accounting for a QuickJS runtime: the bytes that the host attributes
//! to a runtime, and the per-runtime memory report built on them.

pub mod qjs;
pub mod runtime;

pub use runtime::memory::{ExternalMemoryAllocation, ExternalMemoryTracker, RuntimeMemoryUsage};
