//! Boot entry: the lifecycle of the core from reset to parking, and the
//! startup banner written on the raw output path.

use vstd::prelude::*;
use vstd::string::StringSliceAdditionalSpecFns;
use crate::serial::{simple_uart_putc, simple_uart_puts};

verus! {

/// Where the core is in its life. There is no way back from `Parked`.
#[derive(Clone, Copy, Debug, PartialEq, Eq, Structural)]
pub enum BootPhase {
    /// Just out of reset; boot entry is resolving the console.
    Reset,
    /// The console is usable; boot entry writes the banner.
    DriverReady,
    /// A fault was signalled; the fault sink writes its report.
    Panicking,
    /// Waiting for interrupts that never come, until a hardware reset.
    Parked,
}

/// What happened on the core.
#[derive(Clone, Copy, Debug, PartialEq, Eq, Structural)]
pub enum BootEvent {
    /// Boot entry has its console (programmed or not).
    DriverResolved,
    /// Boot entry has written the banner.
    BannerDone,
    /// An unrecoverable fault was signalled.
    Fault,
    /// The fault sink has written its report.
    ReportDone,
}

/// Who may store into the UART registers.
#[derive(Clone, Copy, Debug, PartialEq, Eq, Structural)]
pub enum Writer {
    BootEntry,
    PanicHandler,
    Nobody,
}

/// The phase after `e` happens in phase `p`. A fault diverts boot to the
/// fault sink; a fault inside the fault sink parks the core at once.
pub open spec fn phase_after(p: BootPhase, e: BootEvent) -> BootPhase {
    match (p, e) {
        (BootPhase::Parked, _) => BootPhase::Parked,
        (BootPhase::Panicking, BootEvent::Fault) => BootPhase::Parked,
        (BootPhase::Panicking, BootEvent::ReportDone) => BootPhase::Parked,
        (_, BootEvent::Fault) => BootPhase::Panicking,
        (BootPhase::Reset, BootEvent::DriverResolved) => BootPhase::DriverReady,
        (BootPhase::DriverReady, BootEvent::BannerDone) => BootPhase::Parked,
        _ => p,
    }
}

/// The phase reached from `p` through `events`, in order.
pub open spec fn run(p: BootPhase, events: Seq<BootEvent>) -> BootPhase
    decreases events.len(),
{
    if events.len() == 0 {
        p
    } else {
        run(phase_after(p, events[0]), events.drop_first())
    }
}

/// The one writer of the UART in phase `p`.
pub open spec fn uart_writer(p: BootPhase) -> Writer {
    match p {
        BootPhase::Reset => Writer::BootEntry,
        BootPhase::DriverReady => Writer::BootEntry,
        BootPhase::Panicking => Writer::PanicHandler,
        BootPhase::Parked => Writer::Nobody,
    }
}

/// The phase after `e` happens in phase `p`.
pub fn next_phase(p: BootPhase, e: BootEvent) -> (r: BootPhase)
    ensures
        r == phase_after(p, e),
{
    match (p, e) {
        (BootPhase::Parked, _) => BootPhase::Parked,
        (BootPhase::Panicking, BootEvent::Fault) => BootPhase::Parked,
        (BootPhase::Panicking, BootEvent::ReportDone) => BootPhase::Parked,
        (_, BootEvent::Fault) => BootPhase::Panicking,
        (BootPhase::Reset, BootEvent::DriverResolved) => BootPhase::DriverReady,
        (BootPhase::DriverReady, BootEvent::BannerDone) => BootPhase::Parked,
        _ => p,
    }
}

/// The phase is one of those the fault path can be in.
pub open spec fn in_fault_path(p: BootPhase) -> bool {
    p == BootPhase::Panicking || p == BootPhase::Parked
}

/// No sequence of events leads from the fault path back to boot.
pub proof fn lemma_fault_path_closed(p: BootPhase, events: Seq<BootEvent>)
    requires
        in_fault_path(p),
    ensures
        in_fault_path(run(p, events)),
    decreases events.len(),
{
    if events.len() > 0 {
        lemma_fault_path_closed(phase_after(p, events[0]), events.drop_first());
    }
}

/// A fault in any phase hands the core to the fault sink, which parks it
/// once its report is written (or at once, on a fault inside the sink);
/// whatever happens afterwards, control never comes back to boot, and a
/// parked core stays parked.
pub proof fn lemma_fault_always_parks(p: BootPhase, events: Seq<BootEvent>)
    ensures
        in_fault_path(phase_after(p, BootEvent::Fault)),
        phase_after(phase_after(p, BootEvent::Fault), BootEvent::ReportDone) == BootPhase::Parked,
        in_fault_path(run(phase_after(p, BootEvent::Fault), events)),
        run(BootPhase::Parked, events) == BootPhase::Parked,
    decreases events.len(),
{
    lemma_fault_path_closed(phase_after(p, BootEvent::Fault), events);
    if events.len() > 0 {
        lemma_fault_always_parks(p, events.drop_first());
    }
}

/// Once a fault is signalled, boot entry never writes to the UART again:
/// in every later phase the writer is the fault sink or nobody.
pub proof fn lemma_single_writer_after_fault(p: BootPhase, events: Seq<BootEvent>)
    ensures
        uart_writer(run(phase_after(p, BootEvent::Fault), events)) != Writer::BootEntry,
{
    lemma_fault_path_closed(phase_after(p, BootEvent::Fault), events);
}

/// The one writer of the UART in phase `p`.
pub fn writer_of(p: BootPhase) -> (r: Writer)
    ensures
        r == uart_writer(p),
{
    match p {
        BootPhase::Reset => Writer::BootEntry,
        BootPhase::DriverReady => Writer::BootEntry,
        BootPhase::Panicking => Writer::PanicHandler,
        BootPhase::Parked => Writer::Nobody,
    }
}

/// Boot console: stores byte `c` on the raw path, without programming the
/// UART first.
pub fn uart_putc(out: &mut Vec<u8>, c: u8)
    ensures
        final(out)@ == old(out)@.push(c),
{
    simple_uart_putc(out, c);
}

/// Boot console: stores the bytes of `s`, in order, on the raw path.
pub fn uart_puts(out: &mut Vec<u8>, s: &str)
    ensures
        final(out)@ == old(out)@ + s.spec_bytes(),
{
    simple_uart_puts(out, s);
}

/// The startup banner.
pub open spec fn banner_bytes() -> Seq<u8> {
    "\r\n".spec_bytes() + "Hello from WeNoS on QEMU aarch64!\r\n".spec_bytes()
        + "UART serial driver initialized.\r\n".spec_bytes() + seq![0x41u8, 0x42u8, 0x43u8]
        + "\r\n".spec_bytes() + "Kernel is running...\r\n".spec_bytes()
}

/// Writes the startup banner on the raw path.
pub fn boot_banner(out: &mut Vec<u8>)
    ensures
        final(out)@ == old(out)@ + banner_bytes(),
{
    let ghost start = out@;
    uart_puts(out, "\r\n");
    uart_puts(out, "Hello from WeNoS on QEMU aarch64!\r\n");
    uart_puts(out, "UART serial driver initialized.\r\n");
    uart_putc(out, 0x41);
    uart_putc(out, 0x42);
    uart_putc(out, 0x43);
    uart_puts(out, "\r\n");
    uart_puts(out, "Kernel is running...\r\n");
    assert(out@ =~= start + banner_bytes());
}

} // verus!
