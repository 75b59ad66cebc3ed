//! Device drivers of the x86 platform.

pub mod keyboard;
pub mod uart;
