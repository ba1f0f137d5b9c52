//! Board selection: the one UART that boot and fault paths write to.

use vstd::prelude::*;
use crate::serial::{Pl011Uart, RegWrite, UART_BASE};

verus! {

/// Reference clock of the board's UART, in Hz.
pub const CONSOLE_CLOCK_HZ: u32 = 24_000_000;

/// Baud rate of the board's console.
pub const CONSOLE_BAUD: u32 = 115200;

/// The canonical console handle: the board's UART, nothing performed yet.
pub fn console() -> (r: Pl011Uart)
    ensures
        r.spec_base() == UART_BASE,
        r.log() == Seq::<RegWrite>::empty(),
{
    Pl011Uart::new(UART_BASE)
}

} // verus!
