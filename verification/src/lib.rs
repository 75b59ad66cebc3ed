//! Bring-up layer of a small x86 kernel: segment table construction, CPU
//! identification, keyboard decoding and a framebuffer text terminal.
//!
//! Everything here works on plain values. Whoever owns the hardware reads the
//! registers, ports and boot structures, hands the values in, and carries out
//! what comes back.

pub mod arch;
pub mod hal;
pub mod drivers;
pub mod kernel;
pub mod log;
pub mod multiboot;
