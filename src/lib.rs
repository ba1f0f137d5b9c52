//! Early-boot layer of a bare-metal kernel: a PL011 UART driver that records
//! the register stores it performs, the boot banner, and the panic report.

pub mod serial;
pub mod bsp;
pub mod panic_report;
pub mod boot;
