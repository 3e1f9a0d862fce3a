//! Common re-exports for the crate.

pub use crate::layout::{BindingAccess, BindingSlot, BufferRole, TransferSchema, UsageFlags};
pub use crate::pipeline::{GpuCompute, GpuError, Pipeline, StageDesc};
pub use crate::protocol::{RunCommand, RunState};
