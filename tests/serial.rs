use wenos::bsp::console;
use wenos::serial::{
    baud_divisors, simple_uart_putc, simple_uart_puts, tx_action, Pl011Uart, RegWrite, TxAction,
    CR_ENABLE, FR_TXFF, LCRH_8N1_FIFO, TX_POLL_LIMIT, UART_BASE, UART_CR, UART_DR, UART_FBRD,
    UART_IBRD, UART_LCRH,
};

fn data(bytes: &[u8]) -> Vec<RegWrite> {
    bytes.iter().map(|b| RegWrite { offset: UART_DR, value: *b as u32 }).collect()
}

#[test]
fn init_programs_divisors_for_24mhz_115200() {
    let mut uart = Pl011Uart::new(UART_BASE);
    uart.init(24_000_000, 115200);
    let expected = vec![
        RegWrite { offset: UART_CR, value: 0 },
        RegWrite { offset: UART_IBRD, value: 13 },
        RegWrite { offset: UART_FBRD, value: 1 },
        RegWrite { offset: UART_LCRH, value: 0x70 },
        RegWrite { offset: UART_CR, value: 0x301 },
    ];
    assert_eq!(uart.take_writes(), expected);
    assert_eq!(LCRH_8N1_FIFO, (1 << 4) | (1 << 5) | (1 << 6));
    assert_eq!(CR_ENABLE, (1 << 0) | (1 << 8) | (1 << 9));
}

#[test]
fn baud_divisors_exact_values() {
    assert_eq!(baud_divisors(24_000_000, 115200), (13, 1));
    assert_eq!(baud_divisors(3_686_400, 9600), (24, 0));
    assert_eq!(baud_divisors(48_000_000, 115200), (26, 2));
    // Below 16 times the baud rate the integer part is zero.
    assert_eq!(baud_divisors(100, 115200), (0, 0));
    assert_eq!(baud_divisors(u32::MAX, 1), (268_435_455, 60));
}

#[test]
fn divisor_parts_recombine() {
    let pairs: [(u32, u32); 5] = [
        (24_000_000, 115200),
        (48_000_000, 9600),
        (16, 1),
        (1_000_000, 62_500),
        (u32::MAX, 300),
    ];
    for (clock, baud) in pairs {
        let (int, frac) = baud_divisors(clock, baud);
        let whole = (clock as u64 * 64) / (16 * baud as u64);
        assert_eq!(int as u64 * 64 + frac as u64, whole);
        assert!(frac < 64);
    }
}

#[test]
fn puts_ab_stores_only_data_register() {
    let mut uart = Pl011Uart::new(UART_BASE);
    uart.write_str("AB");
    let writes = uart.take_writes();
    assert_eq!(
        writes,
        vec![RegWrite { offset: 0x00, value: 0x41 }, RegWrite { offset: 0x00, value: 0x42 }]
    );
}

#[test]
fn write_str_equals_putc_of_each_byte() {
    let text = "Hello, wörld\r\n";
    let mut by_str = Pl011Uart::new(UART_BASE);
    by_str.write_str(text);
    let mut by_byte = Pl011Uart::new(UART_BASE);
    for b in text.bytes() {
        by_byte.putc(b);
    }
    let a = by_str.take_writes();
    assert_eq!(a, by_byte.take_writes());
    let emitted: Vec<u8> = a.iter().map(|w| w.value as u8).collect();
    assert_eq!(emitted, text.as_bytes());
    assert!(a.iter().all(|w| w.offset == UART_DR));
}

#[test]
fn write_str_sends_utf8_bytes_untranslated() {
    let mut uart = Pl011Uart::new(UART_BASE);
    uart.write_str("é\n");
    assert_eq!(uart.take_writes(), data(&[0xC3, 0xA9, 0x0A]));
}

#[test]
fn write_str_empty_stores_nothing() {
    let mut uart = Pl011Uart::new(UART_BASE);
    uart.write_str("");
    assert!(uart.take_writes().is_empty());
}

#[test]
fn write_reg_records_offset_and_value() {
    let mut uart = Pl011Uart::new(0x1000);
    uart.write_reg(0x2C, 0xdead_beef);
    uart.putc(0xff);
    assert_eq!(uart.base(), 0x1000);
    assert_eq!(
        uart.take_writes(),
        vec![RegWrite { offset: 0x2C, value: 0xdead_beef }, RegWrite { offset: 0, value: 0xff }]
    );
    assert!(uart.take_writes().is_empty());
    assert_eq!(uart.base(), 0x1000);
}

#[test]
fn console_is_the_board_uart() {
    let mut uart = console();
    assert_eq!(uart.base(), 0x0900_0000);
    assert!(uart.take_writes().is_empty());
}

#[test]
fn raw_path_stores_bytes_in_order() {
    let mut out: Vec<u8> = Vec::new();
    simple_uart_putc(&mut out, b'x');
    simple_uart_puts(&mut out, "yz\r\n");
    simple_uart_puts(&mut out, "");
    assert_eq!(out, b"xyz\r\n".to_vec());
}

#[test]
fn tx_action_polls_then_drops() {
    assert_eq!(FR_TXFF, 1 << 5);
    assert_eq!(tx_action(0, 0), TxAction::Store);
    assert_eq!(tx_action(!FR_TXFF, TX_POLL_LIMIT), TxAction::Store);
    assert_eq!(tx_action(FR_TXFF, 0), TxAction::Poll);
    assert_eq!(tx_action(0xffff_ffff, TX_POLL_LIMIT - 1), TxAction::Poll);
    assert_eq!(tx_action(FR_TXFF, TX_POLL_LIMIT), TxAction::Drop);
    assert_eq!(tx_action(FR_TXFF, u32::MAX), TxAction::Drop);
}
