use rpi_kernel::regs::{has_flag, RegOp, Register};
use rpi_kernel::shell::Shell;
use rpi_kernel::uart::{Uart, UART_FR_RXFE, UART_FR_TXFF, UART_MIS_RXMIS};

fn sent_bytes(ops: &[RegOp]) -> Vec<u8> {
    let mut out = Vec::new();
    for pair in ops.chunks(2) {
        assert_eq!(pair[0], RegOp::WaitWhileSet(Register::Uart0Fr, UART_FR_TXFF));
        match pair[1] {
            RegOp::Write(Register::Uart0Dr, v) => out.push(v as u8),
            other => panic!("unexpected {:?}", other),
        }
    }
    out
}

#[test]
fn register_addresses() {
    assert_eq!(Register::GpuInterruptsRouting.address(), 0x4000000C);
    assert_eq!(Register::GpioUd.address(), 0x3F200094);
    assert_eq!(Register::Uart0Dr.address(), 0x3F201000);
    assert_eq!(Register::Uart0Fr.address(), 0x3F201018);
    assert_eq!(Register::Uart0Tdr.address(), 0x3F20108C);
    assert_eq!(Register::Core0InterruptSource.address(), 0x40000060);
    assert_eq!(Register::IrqBasic.address(), 0x3F00B200);
    assert_eq!(Register::IrqDisableBasic.address(), 0x3F00B224);
}

#[test]
fn register_addresses_are_distinct() {
    let all = [
        Register::GpuInterruptsRouting,
        Register::GpioUd,
        Register::GpioUdclk0,
        Register::Uart0Dr,
        Register::Uart0Rsrecr,
        Register::Uart0Fr,
        Register::Uart0Ilpr,
        Register::Uart0Ibrd,
        Register::Uart0Fbrd,
        Register::Uart0Lcrh,
        Register::Uart0Cr,
        Register::Uart0Ifls,
        Register::Uart0Imsc,
        Register::Uart0Ris,
        Register::Uart0Mis,
        Register::Uart0Icr,
        Register::Uart0Dmacr,
        Register::Uart0Itcr,
        Register::Uart0Itip,
        Register::Uart0Itop,
        Register::Uart0Tdr,
        Register::Core0TimerInterruptCtl,
        Register::Core0InterruptSource,
        Register::IrqBasic,
        Register::IrqPend1,
        Register::IrqPend2,
        Register::IrqFiq,
        Register::IrqEnable1,
        Register::IrqEnable2,
        Register::IrqEnableBasic,
        Register::IrqDisable1,
        Register::IrqDisable2,
        Register::IrqDisableBasic,
    ];
    for i in 0..all.len() {
        for j in (i + 1)..all.len() {
            assert_ne!(all[i].address(), all[j].address());
        }
    }
}

#[test]
fn flag_test() {
    assert!(has_flag(0b1_0000, 1 << 4));
    assert!(!has_flag(0b0_1111, 1 << 4));
    assert!(has_flag(0xFF, 0x11));
    assert!(!has_flag(0x10, 0x11));
    assert!(has_flag(5, 0));
}

#[test]
fn init_sequence() {
    let uart: Uart<Shell> = Uart::new();
    let ops = uart.init();
    assert_eq!(
        ops,
        vec![
            RegOp::Write(Register::Uart0Cr, 0),
            RegOp::Write(Register::GpioUd, 0),
            RegOp::Write(Register::GpioUdclk0, (1 << 14) | (1 << 15)),
            RegOp::Write(Register::GpioUdclk0, 0),
            RegOp::Write(Register::Uart0Icr, 0x7FF),
            RegOp::Write(Register::Uart0Ibrd, 1),
            RegOp::Write(Register::Uart0Fbrd, 40),
            RegOp::Write(Register::Uart0Lcrh, (1 << 4) | (1 << 5) | (1 << 6)),
            RegOp::Write(Register::Uart0Imsc, UART_MIS_RXMIS),
            RegOp::Write(Register::Uart0Cr, (1 << 0) | (1 << 8) | (1 << 9)),
        ]
    );
}

#[test]
fn send_and_send_char() {
    let uart: Uart<Shell> = Uart::new();
    assert_eq!(
        uart.send_char(b'x'),
        vec![
            RegOp::WaitWhileSet(Register::Uart0Fr, 1 << 5),
            RegOp::Write(Register::Uart0Dr, 0x78),
        ]
    );
    let ops = uart.send(b"hi\n");
    assert_eq!(ops.len(), 6);
    assert_eq!(sent_bytes(&ops), b"hi\n".to_vec());
    assert!(uart.send(b"").is_empty());
    let mut joined = uart.send(b"ab");
    joined.extend(uart.send(b"cd"));
    assert_eq!(joined, uart.send(b"abcd"));
}

#[test]
fn receive_plan() {
    let uart: Uart<Shell> = Uart::new();
    assert_eq!(
        uart.receive(),
        vec![
            RegOp::WaitWhileSet(Register::Uart0Fr, UART_FR_RXFE),
            RegOp::Read(Register::Uart0Dr),
        ]
    );
}

#[test]
fn send_hex_digits() {
    let uart: Uart<Shell> = Uart::new();
    assert_eq!(sent_bytes(&uart.send_hex(0)), b"00000000".to_vec());
    assert_eq!(sent_bytes(&uart.send_hex(7)), b"00000007".to_vec());
    assert_eq!(sent_bytes(&uart.send_hex(0xA)), b"0000000A".to_vec());
    assert_eq!(sent_bytes(&uart.send_hex(15)), b"0000000F".to_vec());
    assert_eq!(sent_bytes(&uart.send_hex(16)), b"00000010".to_vec());
    assert_eq!(sent_bytes(&uart.send_hex(0x1234_ABCD)), b"1234ABCD".to_vec());
    assert_eq!(sent_bytes(&uart.send_hex(0xDEAD_BEEF)), b"DEADBEEF".to_vec());
    assert_eq!(sent_bytes(&uart.send_hex(0xFFFF_FFFF)), b"FFFFFFFF".to_vec());
    assert_eq!(sent_bytes(&uart.send_hex(0x8000_0001)), b"80000001".to_vec());
    assert_eq!(uart.send_hex(0x0F0F_0F0F).len(), 16);
}

#[test]
fn interrupt_receives_only_when_pending() {
    let uart: Uart<Shell> = Uart::new();
    assert_eq!(uart.interrupt(UART_MIS_RXMIS), Some(uart.receive()));
    assert_eq!(uart.interrupt(0xFFFF_FFFF), Some(uart.receive()));
    assert_eq!(uart.interrupt(0), None);
    assert_eq!(uart.interrupt(1 << 5), None);
}

#[test]
fn observer_answer_is_sent() {
    let mut uart: Uart<Shell> = Uart::new();
    assert!(uart.notify_observer(b'a' as u32).is_empty());
    uart.subscribe(Shell::new());
    assert_eq!(sent_bytes(&uart.notify_observer(b'a' as u32)), b"a".to_vec());
    assert_eq!(sent_bytes(&uart.notify_observer(0xD)), b"\n".to_vec());
    assert_eq!(sent_bytes(&uart.notify_observer(0x141)), b"A".to_vec());
}
