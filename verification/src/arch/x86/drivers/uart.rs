//! UART (Universal Asynchronous Receiver-Transmitter) of the first serial
//! port.
//!
//! The port is programmed through eight registers that follow its base
//! address. What is here says which register gets which value and how a
//! status byte reads; whoever owns the ports carries it out.

use vstd::prelude::*;

verus! {

/// Base address for COM1.
pub const UART_BASE: u16 = 0x3f8;

/// Number of register writes that set the port up.
pub const INIT_WRITES: usize = 7;

/// One register write: the port and the value.
#[derive(Debug, Clone, Copy, PartialEq, Eq, Structural)]
pub struct PortWrite {
    /// The port to write to.
    pub port: u16,
    /// The value to write.
    pub data: u8,
}

/// UART driver.
#[derive(Debug, Clone, Copy, PartialEq, Eq, Structural)]
pub struct Uart;

impl Uart {
    /// The register writes that set the port up: 38400 baud, eight bits, no
    /// parity, one stop bit, FIFO on.
    pub open spec fn spec_init_sequence() -> Seq<PortWrite> {
        seq![
            PortWrite { port: 0x3f9, data: 0x00 },
            PortWrite { port: 0x3fb, data: 0x80 },
            PortWrite { port: 0x3f8, data: 0x03 },
            PortWrite { port: 0x3f9, data: 0x00 },
            PortWrite { port: 0x3fb, data: 0x03 },
            PortWrite { port: 0x3fa, data: 0xC7 },
            PortWrite { port: 0x3fc, data: 0x0B },
        ]
    }

    /// The register writes that set the port up, in order.
    pub fn init_sequence() -> (writes: [PortWrite; 7])
        ensures
            writes@ == Self::spec_init_sequence(),
    {
        let writes: [PortWrite; 7] = [
            // Disable all interrupts.
            PortWrite { port: UART_BASE + 1, data: 0x00 },
            // Enable DLAB (set baud rate divisor).
            PortWrite { port: UART_BASE + 3, data: 0x80 },
            // Set divisor to 3 (lo byte) 38400 baud.
            PortWrite { port: UART_BASE, data: 0x03 },
            // Set divisor to 3 (hi byte) 38400 baud.
            PortWrite { port: UART_BASE + 1, data: 0x00 },
            // 8 bits, no parity, one stop bit.
            PortWrite { port: UART_BASE + 3, data: 0x03 },
            // Enable FIFO, clear them, with 14-byte threshold.
            PortWrite { port: UART_BASE + 2, data: 0xC7 },
            // IRQs enabled, RTS/DSR set.
            PortWrite { port: UART_BASE + 4, data: 0x0B },
        ];
        assert(writes@ =~= Self::spec_init_sequence());
        writes
    }

    /// Port of the line status register.
    pub fn status_port() -> (port: u16)
        ensures
            port == 0x3fd,
    {
        UART_BASE + 5
    }

    /// Port of the data register.
    pub fn data_port() -> (port: u16)
        ensures
            port == 0x3f8,
    {
        UART_BASE
    }

    /// Tells from the line status register whether the transmit buffer is
    /// empty: bit 5.
    pub fn is_transmit_empty(status: u8) -> (empty: bool)
        ensures
            empty == (status & 0x20 != 0),
    {
        (status & 0x20) != 0
    }
}

} // verus!
