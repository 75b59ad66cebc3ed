//! x86 architecture-specific code.

pub mod cpu;
pub mod drivers;
pub mod gdt;
