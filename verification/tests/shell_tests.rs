use rpi_kernel::shell::{Shell, BUF_SIZE};
use rpi_kernel::uart::UartObserver;

#[test]
fn shell_echoes_input() {
    let shell = Shell::new();
    assert_eq!(shell.notify(b'k' as u32), vec![b'k']);
    assert_eq!(shell.notify(0xD), vec![b'\n']);
    assert_eq!(shell.notify(0xA), vec![b'\n']);
    assert_eq!(shell.notify(0x10D), vec![b'\n']);
    assert_eq!(shell.notify(0x1FF), vec![0xFF]);
}

#[test]
fn shell_banner() {
    let mut shell = Shell { buf: [0; BUF_SIZE] };
    let text = shell.start();
    let expected = "==============================\nStart Kernel\n==============================\n";
    assert_eq!(text, expected.as_bytes().to_vec());
    assert!(shell.buf.iter().all(|b| *b == 0));
}
