//! What the fault sink writes: the console is re-programmed, since the fault
//! may come before boot did so, then a fixed preamble and the fault's
//! location when it is known, rendered without allocation.

use vstd::prelude::*;
use vstd::string::StringSliceAdditionalSpecFns;
use crate::bsp::{CONSOLE_BAUD, CONSOLE_CLOCK_HZ};
use crate::serial::{Pl011Uart, data_write, data_writes, init_writes, lemma_data_writes_concat};

verus! {

/// The ASCII code of the digit zero.
pub const ASCII_ZERO: u8 = 0x30;

/// The decimal digits of `n`, most significant first, in ASCII.
pub open spec fn decimal(n: nat) -> Seq<u8>
    decreases n,
{
    if n < 10 {
        seq![(ASCII_ZERO as nat + n) as u8]
    } else {
        decimal(n / 10).push((ASCII_ZERO as nat + n % 10) as u8)
    }
}

/// The text that reports a fault at `location` (file and line), or at no
/// known location.
pub open spec fn panic_text(location: Option<(&str, u32)>) -> Seq<u8> {
    "\r\n".spec_bytes() + "PANIC: ".spec_bytes() + match location {
        Some((file, line)) => file.spec_bytes() + ":".spec_bytes() + decimal(line as nat)
            + ": panic occurred\r\n".spec_bytes(),
        None => "panic occurred (no location)\r\n".spec_bytes(),
    } + "\r\n".spec_bytes()
}

/// Transmits `n` in decimal, most significant digit first.
pub fn write_decimal(uart: &mut Pl011Uart, n: u32)
    ensures
        final(uart).spec_base() == old(uart).spec_base(),
        final(uart).log() == old(uart).log() + data_writes(decimal(n as nat)),
    decreases n,
{
    let digit: u8 = ASCII_ZERO + (n % 10) as u8;
    if n >= 10 {
        write_decimal(uart, n / 10);
    }
    uart.putc(digit);
    proof {
        let d = decimal(n as nat);
        if n >= 10 {
            assert(d == decimal((n / 10) as nat).push(digit));
        } else {
            assert(d == seq![digit]);
        }
        assert(data_writes(d) =~= data_writes(d.drop_last()).push(data_write(digit)));
    }
}

/// Reports a fault at `location` on `uart`: programs the console's baud rate
/// and frame format, then transmits `panic_text(location)`.
pub fn report_panic(uart: &mut Pl011Uart, location: Option<(&str, u32)>)
    ensures
        final(uart).spec_base() == old(uart).spec_base(),
        final(uart).log() == old(uart).log() + init_writes(
            CONSOLE_CLOCK_HZ as int,
            CONSOLE_BAUD as int,
        ) + data_writes(panic_text(location)),
{
    uart.init(CONSOLE_CLOCK_HZ, CONSOLE_BAUD);
    let ghost start = uart.log();
    uart.write_str("\r\n");
    uart.write_str("PANIC: ");
    match location {
        Some((file, line)) => {
            uart.write_str(file);
            uart.write_str(":");
            write_decimal(uart, line);
            uart.write_str(": panic occurred\r\n");
        },
        None => {
            uart.write_str("panic occurred (no location)\r\n");
        },
    }
    uart.write_str("\r\n");
    proof {
        let pre = "\r\n".spec_bytes() + "PANIC: ".spec_bytes();
        let body = match location {
            Some((file, line)) => file.spec_bytes() + ":".spec_bytes() + decimal(line as nat)
                + ": panic occurred\r\n".spec_bytes(),
            None => "panic occurred (no location)\r\n".spec_bytes(),
        };
        lemma_data_writes_concat("\r\n".spec_bytes(), "PANIC: ".spec_bytes());
        match location {
            Some((file, line)) => {
                lemma_data_writes_concat(file.spec_bytes(), ":".spec_bytes());
                lemma_data_writes_concat(file.spec_bytes() + ":".spec_bytes(), decimal(line as nat));
                lemma_data_writes_concat(
                    file.spec_bytes() + ":".spec_bytes() + decimal(line as nat),
                    ": panic occurred\r\n".spec_bytes(),
                );
            },
            None => {},
        }
        lemma_data_writes_concat(pre, body);
        lemma_data_writes_concat(pre + body, "\r\n".spec_bytes());
        assert(uart.log() =~= start + data_writes(panic_text(location)));
    }
}

} // verus!
