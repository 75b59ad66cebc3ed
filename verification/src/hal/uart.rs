//! UART (Universal Asynchronous Receiver-Transmitter) interface that does not
//! depend on the architecture.

use vstd::prelude::*;

verus! {

/// What a serial port driver offers. The driver owns the device; nothing is
/// promised here of what the device does.
pub trait UartInterface {
    /// Initializes the UART.
    fn init(&self);

    /// Reads a byte from the serial port.
    fn read(&self) -> u8;

    /// Writes the byte `b` to the serial port.
    fn write(&self, b: u8);
}

/// Writes the bytes of `s` to the serial port, in order.
pub fn write_str<U: UartInterface>(uart: &U, s: &str) {
    let bytes: &[u8] = s.as_bytes();
    let mut i: usize = 0;
    while i < bytes.len()
        invariant
            i <= bytes@.len(),
        decreases bytes@.len() - i,
    {
        uart.write(bytes[i]);
        i += 1;
    }
}

} // verus!
