//! HAL (Hardware Abstraction Layer): what the kernel sees of the machine,
//! whatever the architecture.

pub mod cpu;
pub mod keyboard;
pub mod uart;
