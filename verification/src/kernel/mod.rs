//! Kernel components that do not depend on the architecture.

pub mod gfx;
pub mod memlayout;
