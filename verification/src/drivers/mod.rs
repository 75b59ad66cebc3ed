//! Device descriptions.

pub mod vbe;
