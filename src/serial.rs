//! PL011 UART driver for the QEMU aarch64 `virt` board.
//!
//! The driver never touches memory itself: every register store it performs
//! is appended, in program order, to a pending list that the platform layer
//! hands to the hardware (or that a test inspects).

use vstd::prelude::*;
use vstd::string::StringSliceAdditionalSpecFns;

verus! {

/// Base address of the UART register block on the QEMU aarch64 `virt` board.
pub const UART_BASE: usize = 0x0900_0000;

/// Data register.
pub const UART_DR: usize = 0x00;

/// Flag register.
pub const UART_FR: usize = 0x18;

/// Integer baud-rate divisor register.
pub const UART_IBRD: usize = 0x24;

/// Fractional baud-rate divisor register.
pub const UART_FBRD: usize = 0x28;

/// Line-control register.
pub const UART_LCRH: usize = 0x2C;

/// Control register.
pub const UART_CR: usize = 0x30;

/// Flag register bit: the transmit FIFO is full.
pub const FR_TXFF: u32 = 0x20;

/// Line control: FIFOs enabled (bit 4), 8-bit words (bits 5 and 6),
/// no parity, one stop bit.
pub const LCRH_8N1_FIFO: u32 = 0x70;

/// Control: UART enabled (bit 0), transmit enabled (bit 8), receive
/// enabled (bit 9).
pub const CR_ENABLE: u32 = 0x301;

/// Polls of the flag register allowed before a byte is dropped.
pub const TX_POLL_LIMIT: u32 = 100_000;

/// Address of the data register used by the raw output path, which stores
/// bytes without programming the UART first.
pub const UART0_DR: usize = 0x0900_0000;

/// One store of `value` into the register at `offset` from the UART base.
#[derive(Clone, Copy, Debug, PartialEq, Eq, Structural)]
pub struct RegWrite {
    pub offset: usize,
    pub value: u32,
}

/// The store that transmits byte `c`.
pub open spec fn data_write(c: u8) -> RegWrite {
    RegWrite { offset: UART_DR, value: c as u32 }
}

/// The stores that transmit `bytes`, one data-register store per byte, in order.
pub open spec fn data_writes(bytes: Seq<u8>) -> Seq<RegWrite> {
    bytes.map_values(|c: u8| data_write(c))
}

/// Storing `a` then `b` is storing `a + b`.
pub proof fn lemma_data_writes_concat(a: Seq<u8>, b: Seq<u8>)
    ensures
        data_writes(a + b) == data_writes(a) + data_writes(b),
{
    assert(data_writes(a + b) =~= data_writes(a) + data_writes(b));
}

/// The baud-rate divisor in units of 1/64: `clock_hz * 64 / (16 * baud)`,
/// rounded down.
pub open spec fn baud_divisor(clock_hz: int, baud: int) -> int {
    (clock_hz * 64) / (baud * 16)
}

/// The integer part of the baud-rate divisor.
pub open spec fn divisor_int(clock_hz: int, baud: int) -> int {
    baud_divisor(clock_hz, baud) / 64
}

/// The fractional part of the baud-rate divisor, in 64ths.
pub open spec fn divisor_frac(clock_hz: int, baud: int) -> int {
    baud_divisor(clock_hz, baud) % 64
}

/// The stores that program the UART for `baud` from a `clock_hz` reference
/// clock: disable, both divisor parts, 8N1 with FIFOs, enable.
pub open spec fn init_writes(clock_hz: int, baud: int) -> Seq<RegWrite> {
    seq![
        RegWrite { offset: UART_CR, value: 0 },
        RegWrite { offset: UART_IBRD, value: divisor_int(clock_hz, baud) as u32 },
        RegWrite { offset: UART_FBRD, value: divisor_frac(clock_hz, baud) as u32 },
        RegWrite { offset: UART_LCRH, value: LCRH_8N1_FIFO },
        RegWrite { offset: UART_CR, value: CR_ENABLE },
    ]
}

/// The integer and fractional baud-rate divisor parts for `baud` from a
/// `clock_hz` reference clock.
pub fn baud_divisors(clock_hz: u32, baud: u32) -> (r: (u32, u32))
    requires
        baud > 0,
    ensures
        r.0 as int == divisor_int(clock_hz as int, baud as int),
        r.1 as int == divisor_frac(clock_hz as int, baud as int),
{
    let scaled: u64 = clock_hz as u64 * 64;
    let den: u64 = baud as u64 * 16;
    let div: u64 = scaled / den;
    assert(div <= scaled) by (nonlinear_arith)
        requires
            div as int == scaled as int / den as int,
            den > 0,
    ;
    let div_int: u64 = div / 64;
    let div_frac: u64 = div % 64;
    (div_int as u32, div_frac as u32)
}

/// What a transmitter does next with a byte waiting to be stored.
#[derive(Clone, Copy, Debug, PartialEq, Eq, Structural)]
pub enum TxAction {
    /// The transmit FIFO has room: store the byte.
    Store,
    /// The FIFO is full: read the flag register again.
    Poll,
    /// The FIFO stayed full for the whole poll budget: drop the byte.
    Drop,
}

/// The flag register value `flags` says the transmit FIFO is full.
pub open spec fn tx_fifo_full(flags: u32) -> bool {
    flags & FR_TXFF != 0
}

/// The next step for a waiting byte, given the flag register value `flags`
/// and the number of polls already made for it. A byte is never waited on
/// for more than `TX_POLL_LIMIT` polls.
pub fn tx_action(flags: u32, polls: u32) -> (r: TxAction)
    ensures
        !tx_fifo_full(flags) ==> r == TxAction::Store,
        tx_fifo_full(flags) && polls < TX_POLL_LIMIT ==> r == TxAction::Poll,
        tx_fifo_full(flags) && polls >= TX_POLL_LIMIT ==> r == TxAction::Drop,
{
    if flags & FR_TXFF == 0 {
        TxAction::Store
    } else if polls < TX_POLL_LIMIT {
        TxAction::Poll
    } else {
        TxAction::Drop
    }
}

/// Stores byte `c` into the data register at `UART0_DR` on the raw path:
/// `out` holds the bytes stored there, in order.
pub fn simple_uart_putc(out: &mut Vec<u8>, c: u8)
    ensures
        final(out)@ == old(out)@.push(c),
{
    out.push(c);
}

/// Stores the bytes of `s`, in order, on the raw path.
pub fn simple_uart_puts(out: &mut Vec<u8>, s: &str)
    ensures
        final(out)@ == old(out)@ + s.spec_bytes(),
{
    let bytes = s.as_bytes();
    let mut i: usize = 0;
    while i < bytes.len()
        invariant
            bytes@ == s.spec_bytes(),
            0 <= i <= bytes@.len(),
            out@ == old(out)@ + bytes@.subrange(0, i as int),
        decreases bytes@.len() - i,
    {
        simple_uart_putc(out, bytes[i]);
        assert(bytes@.subrange(0, i + 1) =~= bytes@.subrange(0, i as int).push(bytes@[i as int]));
        i = i + 1;
    }
    assert(bytes@.subrange(0, i as int) =~= bytes@);
}

/// The integer and fractional divisor parts together make up the whole
/// divisor, and the fractional part is below 64.
pub proof fn lemma_divisor_parts(clock_hz: u32, baud: u32)
    requires
        baud > 0,
        clock_hz >= 16 * baud,
    ensures
        divisor_int(clock_hz as int, baud as int) * 64 + divisor_frac(clock_hz as int, baud as int)
            == (clock_hz as int * 64) / (16 * baud as int),
        0 <= divisor_frac(clock_hz as int, baud as int) < 64,
{
    let d = baud_divisor(clock_hz as int, baud as int);
    assert(baud as int * 16 == 16 * baud as int);
    vstd::arithmetic::div_mod::lemma_fundamental_div_mod(d, 64);
    vstd::arithmetic::div_mod::lemma_mod_bound(d, 64);
}

/// The log after `putc` of each byte of `bytes`, in order, starting from `log`.
pub open spec fn putc_each(log: Seq<RegWrite>, bytes: Seq<u8>) -> Seq<RegWrite>
    decreases bytes.len(),
{
    if bytes.len() == 0 {
        log
    } else {
        putc_each(log.push(data_write(bytes[0])), bytes.drop_first())
    }
}

/// Writing a string is `putc` of each of its bytes in order: nothing is
/// inserted, dropped or reordered, only the data register is stored to, and
/// the bytes stored there are the input bytes.
pub proof fn lemma_write_str_is_putc_in_order(log: Seq<RegWrite>, bytes: Seq<u8>)
    ensures
        putc_each(log, bytes) == log + data_writes(bytes),
        forall|i: int| 0 <= i < bytes.len() ==> (#[trigger] data_writes(bytes)[i]).offset == UART_DR,
        data_writes(bytes).map_values(|w: RegWrite| w.value as u8) == bytes,
    decreases bytes.len(),
{
    if bytes.len() > 0 {
        lemma_write_str_is_putc_in_order(log.push(data_write(bytes[0])), bytes.drop_first());
        assert(data_writes(bytes) =~= seq![data_write(bytes[0])] + data_writes(bytes.drop_first()));
        assert(log.push(data_write(bytes[0])) + data_writes(bytes.drop_first()) =~= log + data_writes(bytes));
    }
    assert(data_writes(bytes).map_values(|w: RegWrite| w.value as u8) =~= bytes);
}

/// A PL011 UART at a fixed base address.
pub struct Pl011Uart {
    base: usize,
    pending: Vec<RegWrite>,
}

impl Pl011Uart {
    /// The base address the driver was created for.
    pub closed spec fn spec_base(&self) -> usize {
        self.base
    }

    /// The register stores performed so far and not yet taken.
    pub closed spec fn log(&self) -> Seq<RegWrite> {
        self.pending@
    }

    /// A driver for the register block at `base`, with nothing performed yet.
    pub fn new(base: usize) -> (r: Self)
        ensures
            r.spec_base() == base,
            r.log() == Seq::<RegWrite>::empty(),
    {
        Pl011Uart { base, pending: Vec::new() }
    }

    /// The base address of the register block.
    pub fn base(&self) -> (r: usize)
        ensures
            r == self.spec_base(),
    {
        self.base
    }

    /// Stores `value` into the register at offset `reg`.
    pub fn write_reg(&mut self, reg: usize, value: u32)
        ensures
            final(self).spec_base() == old(self).spec_base(),
            final(self).log() == old(self).log().push(RegWrite { offset: reg, value }),
    {
        self.pending.push(RegWrite { offset: reg, value });
    }

    /// Programs the UART for `baud` from a `clock_hz` reference clock, 8 data
    /// bits, no parity, one stop bit, FIFOs enabled, and enables it.
    pub fn init(&mut self, clock_hz: u32, baud: u32)
        requires
            baud > 0,
        ensures
            final(self).spec_base() == old(self).spec_base(),
            final(self).log() == old(self).log() + init_writes(clock_hz as int, baud as int),
    {
        self.write_reg(UART_CR, 0);
        let (div_int, div_frac) = baud_divisors(clock_hz, baud);
        self.write_reg(UART_IBRD, div_int);
        self.write_reg(UART_FBRD, div_frac);
        self.write_reg(UART_LCRH, LCRH_8N1_FIFO);
        self.write_reg(UART_CR, CR_ENABLE);
        assert(self.log() =~= old(self).log() + init_writes(clock_hz as int, baud as int));
    }

    /// Transmits byte `c`.
    pub fn putc(&mut self, c: u8)
        ensures
            final(self).spec_base() == old(self).spec_base(),
            final(self).log() == old(self).log().push(data_write(c)),
    {
        self.write_reg(UART_DR, c as u32);
    }

    /// Transmits the bytes of `s` in order, with no translation.
    pub fn write_str(&mut self, s: &str)
        ensures
            final(self).spec_base() == old(self).spec_base(),
            final(self).log() == old(self).log() + data_writes(s.spec_bytes()),
    {
        let bytes = s.as_bytes();
        let mut i: usize = 0;
        while i < bytes.len()
            invariant
                bytes@ == s.spec_bytes(),
                0 <= i <= bytes@.len(),
                self.spec_base() == old(self).spec_base(),
                self.log() == old(self).log() + data_writes(bytes@.subrange(0, i as int)),
            decreases bytes@.len() - i,
        {
            self.putc(bytes[i]);
            assert(bytes@.subrange(0, i + 1) =~= bytes@.subrange(0, i as int).push(bytes@[i as int]));
            assert(data_writes(bytes@.subrange(0, i + 1)) =~= data_writes(bytes@.subrange(0, i as int)).push(data_write(bytes@[i as int])));
            i = i + 1;
        }
        assert(bytes@.subrange(0, i as int) =~= bytes@);
    }

    /// Hands over the stores performed so far, in order, and forgets them.
    pub fn take_writes(&mut self) -> (r: Vec<RegWrite>)
        ensures
            r@ == old(self).log(),
            final(self).spec_base() == old(self).spec_base(),
            final(self).log() == Seq::<RegWrite>::empty(),
    {
        let mut taken: Vec<RegWrite> = Vec::new();
        std::mem::swap(&mut taken, &mut self.pending);
        taken
    }
}

} // verus!
