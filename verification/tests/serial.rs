use kernel::serial::{
    interrupt_handler, BaudRate, DataBit, Parity, PortAction, PortWrite, SerialPort, StopBit, COM1,
    COM2, COM3, COM4, DATA_AVAILABLE, LOW_POWER,
};

fn com1() -> SerialPort {
    SerialPort::new(COM1, BaudRate::B38400, DataBit::B8, StopBit::B1, Parity::NoParity, 0)
}

fn w(port: u16, value: u8) -> PortWrite {
    PortWrite { port, value }
}

#[test]
fn conventional_ports() {
    assert_eq!([COM1, COM2, COM3, COM4], [0x3f8, 0x2f8, 0x3e8, 0x2e8]);
    assert_eq!(DATA_AVAILABLE, 1);
    assert_eq!(LOW_POWER, 1 << 5);
}

#[test]
fn new_keeps_its_arguments() {
    let port =
        SerialPort::new(COM2, BaudRate::B9600, DataBit::B7, StopBit::B2, Parity::Even, DATA_AVAILABLE);
    assert_eq!(port.port, 0x2f8);
    assert_eq!(port.baud_rate, BaudRate::B9600);
    assert_eq!(port.data_bits, DataBit::B7);
    assert_eq!(port.stop_bits, StopBit::B2);
    assert_eq!(port.parity, Parity::Even);
    assert_eq!(port.interrupts, 1);
}

#[test]
fn divisors() {
    let expected = [
        (BaudRate::B115200, 1),
        (BaudRate::B57600, 2),
        (BaudRate::B38400, 3),
        (BaudRate::B28800, 4),
        (BaudRate::B19200, 6),
        (BaudRate::B14400, 8),
        (BaudRate::B9600, 12),
        (BaudRate::B4800, 24),
        (BaudRate::B2400, 48),
        (BaudRate::B1200, 96),
        (BaudRate::B600, 192),
        (BaudRate::B300, 384),
        (BaudRate::B220, 524),
        (BaudRate::B110, 1047),
        (BaudRate::B50, 2304),
    ];
    for (rate, divisor) in expected {
        assert_eq!(rate.divisor(), divisor);
    }
}

#[test]
fn format_fields() {
    assert_eq!(
        [DataBit::B5.bits(), DataBit::B6.bits(), DataBit::B7.bits(), DataBit::B8.bits()],
        [0, 1, 2, 3]
    );
    assert_eq!([StopBit::B1.bits(), StopBit::B2.bits()], [0, 1]);
    assert_eq!(
        [
            Parity::NoParity.bits(),
            Parity::Odd.bits(),
            Parity::Even.bits(),
            Parity::Mark.bits(),
            Parity::Space.bits()
        ],
        [0, 1, 3, 5, 7]
    );
}

#[test]
fn line_control_packs_the_three_fields() {
    assert_eq!(com1().line_control(), 0x03);
    let port = SerialPort::new(COM1, BaudRate::B9600, DataBit::B7, StopBit::B2, Parity::Even, 0);
    assert_eq!(port.line_control(), 0b0001_1110);
    let port = SerialPort::new(COM1, BaudRate::B9600, DataBit::B5, StopBit::B1, Parity::Space, 0);
    assert_eq!(port.line_control(), 0b0011_1000);
    let port = SerialPort::new(COM1, BaudRate::B9600, DataBit::B8, StopBit::B2, Parity::Space, 0);
    assert_eq!(port.line_control(), 0b0011_1111);
    for data in [DataBit::B5, DataBit::B6, DataBit::B7, DataBit::B8] {
        for stop in [StopBit::B1, StopBit::B2] {
            for parity in [Parity::NoParity, Parity::Odd, Parity::Even, Parity::Mark, Parity::Space] {
                let port = SerialPort::new(COM3, BaudRate::B50, data, stop, parity, 0);
                let expected = data.bits() | stop.bits() << 2 | parity.bits() << 3;
                assert_eq!(port.line_control() as u16, expected);
            }
        }
    }
}

#[test]
fn setup_writes_for_com1() {
    assert_eq!(
        com1().setup(),
        vec![
            w(0x3f9, 0x00),
            w(0x3fb, 0x80),
            w(0x3f8, 0x03),
            w(0x3f9, 0x00),
            w(0x3fb, 0x03),
            w(0x3fa, 0xc7),
            w(0x3fc, 0x0b),
        ]
    );
}

#[test]
fn setup_splits_the_divisor_into_two_bytes() {
    let port = SerialPort::new(COM4, BaudRate::B110, DataBit::B7, StopBit::B1, Parity::Odd, 0);
    assert_eq!(
        port.setup(),
        vec![
            w(0x2e9, 0x00),
            w(0x2eb, 0x80),
            w(0x2e8, 0x17),
            w(0x2e9, 0x04),
            w(0x2eb, 0x0a),
            w(0x2ea, 0xc7),
            w(0x2ec, 0x0b),
        ]
    );
    let slow = SerialPort::new(0, BaudRate::B50, DataBit::B8, StopBit::B1, Parity::NoParity, 0);
    assert_eq!(slow.setup()[2], w(0, 0x00));
    assert_eq!(slow.setup()[3], w(1, 0x09));
}

#[test]
fn setup_at_the_top_of_the_port_space() {
    let port =
        SerialPort::new(0xfff8, BaudRate::B115200, DataBit::B8, StopBit::B1, Parity::NoParity, 0);
    let writes = port.setup();
    assert_eq!(writes[0], w(0xfff9, 0));
    assert_eq!(writes[6], w(0xfffc, 0x0b));
    assert_eq!(port.line_status_port(), 0xfffd);
}

#[test]
fn received_reads_bit_0() {
    assert!(com1().received(0x01));
    assert!(com1().received(0xff));
    assert!(!com1().received(0x00));
    assert!(!com1().received(0xfe));
}

#[test]
fn is_empty_reads_bit_5() {
    assert!(com1().is_empty(0x20));
    assert!(com1().is_empty(0xff));
    assert!(!com1().is_empty(0x00));
    assert!(!com1().is_empty(0x01));
    assert!(!com1().is_empty(0xdf));
}

#[test]
fn read_waits_for_a_byte() {
    assert_eq!(com1().line_status_port(), 0x3fd);
    assert_eq!(com1().read(0x60), PortAction::Poll { port: 0x3fd });
    assert_eq!(com1().read(0x61), PortAction::Read { port: 0x3f8 });
}

#[test]
fn write_waits_for_the_transmitter() {
    assert_eq!(com1().write(0x01, b'x'), PortAction::Poll { port: 0x3fd });
    assert_eq!(com1().write(0x20, b'x'), PortAction::Write(w(0x3f8, b'x')));
    assert_eq!(com1().write(0x61, 0), PortAction::Write(w(0x3f8, 0)));
}

#[test]
fn write_str_gives_one_byte_for_each_character() {
    assert_eq!(com1().write_str(""), Vec::<u8>::new());
    assert_eq!(com1().write_str("Hello, World!"), b"Hello, World!".to_vec());
    assert_eq!(com1().write_str("\u{e9}"), vec![0xe9]);
    assert_eq!(com1().write_str("a\u{20ac}b"), vec![b'a', 0xac, b'b']);
    assert_eq!(com1().write_str("\u{10ffff}\u{100}"), vec![0xff, 0x00]);
}

#[test]
fn interrupt_handler_returns() {
    interrupt_handler(0);
    interrupt_handler(3);
}
