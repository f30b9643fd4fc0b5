//! The decisions of the driver for the 8250 family of serial ports.
//!
//! The driver's port accesses are made elsewhere. This module says which
//! values are written to which ports, and reads the status bytes that the
//! port hands back.

use vstd::prelude::*;

verus! {

/// The base ports at which the four conventional serial ports are found.
pub const COM1: u16 = 0x3F8;

pub const COM2: u16 = 0x2F8;

pub const COM3: u16 = 0x3E8;

pub const COM4: u16 = 0x2E8;

/// The registers of a port, as offsets from its base port.
pub const DATA: u16 = 0;

pub const INTERRUPT_ENABLE: u16 = 1;

pub const INTERRUPT_IDENTIFICATION: u16 = 2;

pub const LINE_CONTROL: u16 = 3;

pub const MODEM_CONTROL: u16 = 4;

pub const LINE_STATUS: u16 = 5;

pub const MODEM_STATUS: u16 = 6;

pub const SCRATCH: u16 = 7;

/// The interrupts that a port can raise, as bits of its interrupt-enable
/// register.
pub const DATA_AVAILABLE: u8 = 0x01;

pub const TRANSMITTER_EMPTY: u8 = 0x02;

pub const RECEIVER_LINE_STATUS: u8 = 0x04;

pub const MODEM_STATUS_CHANGE: u8 = 0x08;

pub const SLEEP: u8 = 0x10;

pub const LOW_POWER: u8 = 0x20;

/// The line speeds that the port's clock can be divided down to.
#[derive(Clone, Copy, Debug, PartialEq, Eq, Structural)]
pub enum BaudRate {
    B115200,
    B57600,
    B38400,
    B28800,
    B19200,
    B14400,
    B9600,
    B4800,
    B2400,
    B1200,
    B600,
    B300,
    B220,
    B110,
    B50,
}

impl BaudRate {
    /// The divisor that brings the port's clock of 115200 ticks per second
    /// down to this speed.
    pub open spec fn spec_divisor(self) -> u16 {
        match self {
            BaudRate::B115200 => 1,
            BaudRate::B57600 => 2,
            BaudRate::B38400 => 3,
            BaudRate::B28800 => 4,
            BaudRate::B19200 => 6,
            BaudRate::B14400 => 8,
            BaudRate::B9600 => 12,
            BaudRate::B4800 => 24,
            BaudRate::B2400 => 48,
            BaudRate::B1200 => 96,
            BaudRate::B600 => 192,
            BaudRate::B300 => 384,
            BaudRate::B220 => 524,
            BaudRate::B110 => 1047,
            BaudRate::B50 => 2304,
        }
    }

    /// The divisor that brings the port's clock down to this speed.
    #[verifier::when_used_as_spec(spec_divisor)]
    pub fn divisor(self) -> (divisor: u16)
        ensures
            divisor == self.spec_divisor(),
    {
        match self {
            BaudRate::B115200 => 1,
            BaudRate::B57600 => 2,
            BaudRate::B38400 => 3,
            BaudRate::B28800 => 4,
            BaudRate::B19200 => 6,
            BaudRate::B14400 => 8,
            BaudRate::B9600 => 12,
            BaudRate::B4800 => 24,
            BaudRate::B2400 => 48,
            BaudRate::B1200 => 96,
            BaudRate::B600 => 192,
            BaudRate::B300 => 384,
            BaudRate::B220 => 524,
            BaudRate::B110 => 1047,
            BaudRate::B50 => 2304,
        }
    }
}

/// The number of data bits in a character.
#[derive(Clone, Copy, Debug, PartialEq, Eq, Structural)]
pub enum DataBit {
    B5,
    B6,
    B7,
    B8,
}

impl DataBit {
    /// The two-bit field of the line-control register that selects this
    /// length.
    pub open spec fn spec_bits(self) -> u16 {
        match self {
            DataBit::B5 => 0,
            DataBit::B6 => 1,
            DataBit::B7 => 2,
            DataBit::B8 => 3,
        }
    }

    /// The field of the line-control register that selects this length.
    #[verifier::when_used_as_spec(spec_bits)]
    pub fn bits(self) -> (bits: u16)
        ensures
            bits == self.spec_bits(),
    {
        match self {
            DataBit::B5 => 0,
            DataBit::B6 => 1,
            DataBit::B7 => 2,
            DataBit::B8 => 3,
        }
    }
}

/// The number of stop bits after a character.
#[derive(Clone, Copy, Debug, PartialEq, Eq, Structural)]
pub enum StopBit {
    B1,
    B2,
}

impl StopBit {
    /// The one-bit field of the line-control register that selects this
    /// number.
    pub open spec fn spec_bits(self) -> u16 {
        match self {
            StopBit::B1 => 0,
            StopBit::B2 => 1,
        }
    }

    /// The field of the line-control register that selects this number.
    #[verifier::when_used_as_spec(spec_bits)]
    pub fn bits(self) -> (bits: u16)
        ensures
            bits == self.spec_bits(),
    {
        match self {
            StopBit::B1 => 0,
            StopBit::B2 => 1,
        }
    }
}

/// The parity bit sent with a character.
#[derive(Clone, Copy, Debug, PartialEq, Eq, Structural)]
pub enum Parity {
    NoParity,
    Odd,
    Even,
    Mark,
    Space,
}

impl Parity {
    /// The three-bit field of the line-control register that selects this
    /// parity.
    pub open spec fn spec_bits(self) -> u16 {
        match self {
            Parity::NoParity => 0,
            Parity::Odd => 1,
            Parity::Even => 3,
            Parity::Mark => 5,
            Parity::Space => 7,
        }
    }

    /// The field of the line-control register that selects this parity.
    #[verifier::when_used_as_spec(spec_bits)]
    pub fn bits(self) -> (bits: u16)
        ensures
            bits == self.spec_bits(),
    {
        match self {
            Parity::NoParity => 0,
            Parity::Odd => 1,
            Parity::Even => 3,
            Parity::Mark => 5,
            Parity::Space => 7,
        }
    }
}

/// One byte written to one port.
#[derive(Clone, Copy, Debug, PartialEq, Eq, Structural)]
pub struct PortWrite {
    pub port: u16,
    pub value: u8,
}

/// The settings of one serial port.
#[derive(Clone, Copy, Debug, PartialEq, Eq, Structural)]
pub struct SerialPort {
    pub port: u16,
    pub baud_rate: BaudRate,
    pub data_bits: DataBit,
    pub stop_bits: StopBit,
    pub parity: Parity,
    pub interrupts: u8,
}

/// The byte that selects a character format in the line-control register:
/// the data bits in bits 0 and 1, the stop bits in bit 2, the parity in
/// bits 3 to 5.
pub open spec fn line_control(data_bits: DataBit, stop_bits: StopBit, parity: Parity) -> u8 {
    (data_bits.spec_bits() + 4 * stop_bits.spec_bits() + 8 * parity.spec_bits()) as u8
}

impl SerialPort {
    /// The settings of the port whose registers begin at `port`.
    pub fn new(
        port: u16,
        baud_rate: BaudRate,
        data_bits: DataBit,
        stop_bits: StopBit,
        parity: Parity,
        interrupts: u8,
    ) -> (serial: SerialPort)
        ensures
            serial == (SerialPort { port, baud_rate, data_bits, stop_bits, parity, interrupts }),
    {
        SerialPort { port, baud_rate, data_bits, stop_bits, parity, interrupts }
    }

    /// Whether all eight registers of the port lie in the port space.
    pub open spec fn in_port_space(self) -> bool {
        self.port + SCRATCH <= u16::MAX
    }

    /// The writes that bring the port into its settings: interrupts off,
    /// the divisor latch opened and the divisor stored low byte first, the
    /// latch closed again by the character format, the buffers enabled and
    /// cleared with a threshold of fourteen bytes, and the modem lines
    /// raised.
    pub open spec fn setup_writes(self) -> Seq<PortWrite> {
        let base = self.port;
        let divisor = self.baud_rate.spec_divisor();
        seq![
            PortWrite { port: (base + INTERRUPT_ENABLE) as u16, value: 0x00 },
            PortWrite { port: (base + LINE_CONTROL) as u16, value: 0x80 },
            PortWrite { port: (base + DATA) as u16, value: (divisor % 0x100) as u8 },
            PortWrite { port: (base + INTERRUPT_ENABLE) as u16, value: (divisor / 0x100) as u8 },
            PortWrite {
                port: (base + LINE_CONTROL) as u16,
                value: line_control(self.data_bits, self.stop_bits, self.parity),
            },
            PortWrite { port: (base + INTERRUPT_IDENTIFICATION) as u16, value: 0xC7 },
            PortWrite { port: (base + MODEM_CONTROL) as u16, value: 0x0B },
        ]
    }

    /// The byte for the line-control register that selects the port's
    /// character format.
    pub fn line_control(&self) -> (byte: u8)
        ensures
            byte == line_control(self.data_bits, self.stop_bits, self.parity),
    {
        let data: u16 = self.data_bits.bits();
        let stop: u16 = self.stop_bits.bits();
        let parity: u16 = self.parity.bits();
        let packed: u16 = data | (stop << 2) | (parity << 3);
        assert(packed == data + 4 * stop + 8 * parity) by (bit_vector)
            requires
                packed == data | (stop << 2) | (parity << 3),
                data <= 3,
                stop <= 1,
                parity <= 7,
        ;
        packed as u8
    }

    /// The writes that bring the port into its settings, to be made in the
    /// order given.
    pub fn setup(&self) -> (writes: Vec<PortWrite>)
        requires
            self.in_port_space(),
        ensures
            writes@ == self.setup_writes(),
    {
        let divisor: u16 = self.baud_rate.divisor();
        let low: u8 = (divisor & 0xFF) as u8;
        let high: u8 = (divisor >> 8) as u8;
        assert(divisor & 0xFF == divisor % 0x100 && divisor >> 8 == divisor / 0x100)
            by (bit_vector);
        let mut writes: Vec<PortWrite> = Vec::new();
        writes.push(PortWrite { port: self.port + INTERRUPT_ENABLE, value: 0x00 });
        writes.push(PortWrite { port: self.port + LINE_CONTROL, value: 0x80 });
        writes.push(PortWrite { port: self.port + DATA, value: low });
        writes.push(PortWrite { port: self.port + INTERRUPT_ENABLE, value: high });
        writes.push(PortWrite { port: self.port + LINE_CONTROL, value: self.line_control() });
        writes.push(PortWrite { port: self.port + INTERRUPT_IDENTIFICATION, value: 0xC7 });
        writes.push(PortWrite { port: self.port + MODEM_CONTROL, value: 0x0B });
        assert(writes@ =~= self.setup_writes());
        writes
    }

    /// The port from which the line status is read.
    pub fn line_status_port(&self) -> (port: u16)
        requires
            self.in_port_space(),
        ensures
            port == self.port + LINE_STATUS,
    {
        self.port + LINE_STATUS
    }

    /// Whether a line status says that a received byte is waiting.
    pub fn received(&self, line_status: u8) -> (waiting: bool)
        ensures
            waiting == data_ready(line_status),
    {
        line_status & 0x01 > 0
    }

    /// Whether a line status says that the transmitter can take a byte.
    pub fn is_empty(&self, line_status: u8) -> (empty: bool)
        ensures
            empty == transmitter_empty(line_status),
    {
        assert((line_status & 0x20 > 1) == (line_status & 0x20 != 0)) by (bit_vector);
        line_status & 0x20 > 1
    }

    /// What a reader of the port does on a line status: it takes the byte
    /// from the data register if one is waiting, and reads the status again
    /// if none is.
    pub fn read(&self, line_status: u8) -> (action: PortAction)
        requires
            self.in_port_space(),
        ensures
            action == if data_ready(line_status) {
                PortAction::Read { port: self.port }
            } else {
                PortAction::Poll { port: (self.port + LINE_STATUS) as u16 }
            },
    {
        if self.received(line_status) {
            PortAction::Read { port: self.port }
        } else {
            PortAction::Poll { port: self.line_status_port() }
        }
    }

    /// What a writer of the byte `a` does on a line status: it stores the
    /// byte in the data register if the transmitter can take it, and reads
    /// the status again if it cannot.
    pub fn write(&self, line_status: u8, a: u8) -> (action: PortAction)
        requires
            self.in_port_space(),
        ensures
            action == if transmitter_empty(line_status) {
                PortAction::Write(PortWrite { port: self.port, value: a })
            } else {
                PortAction::Poll { port: (self.port + LINE_STATUS) as u16 }
            },
    {
        if self.is_empty(line_status) {
            PortAction::Write(PortWrite { port: self.port, value: a })
        } else {
            PortAction::Poll { port: self.line_status_port() }
        }
    }

    /// The bytes that stand for a text on the line: one for each character,
    /// in order, each to be handed to `write`.
    pub fn write_str(&self, s: &str) -> (bytes: Vec<u8>)
        ensures
            bytes@ == line_bytes(s@),
    {
        let mut bytes: Vec<u8> = Vec::new();
        for c in it: s.chars()
            invariant
                it.seq() == s@,
                bytes@ == line_bytes(s@.take(it.index())),
        {
            let code: u32 = c as u32;
            assert(code & 0xFF == code % 0x100) by (bit_vector);
            bytes.push((code & 0xFF) as u8);
            assert(bytes@ =~= line_bytes(s@.take(it.index() + 1)));
        }
        assert(s@.take(s@.len() as int) =~= s@);
        bytes
    }
}

/// Whether a line status has its data-ready bit set.
pub open spec fn data_ready(line_status: u8) -> bool {
    line_status & 0x01 != 0
}

/// Whether a line status has its transmitter-empty bit set.
pub open spec fn transmitter_empty(line_status: u8) -> bool {
    line_status & 0x20 != 0
}

/// The byte that stands for a character on the line: the lowest eight bits
/// of its code point.
pub open spec fn line_byte(c: char) -> u8 {
    (c as u32 % 0x100) as u8
}

/// The bytes that stand for a text on the line.
pub open spec fn line_bytes(text: Seq<char>) -> Seq<u8> {
    Seq::new(text.len(), |i: int| line_byte(text[i]))
}

/// What the driver does next at a port.
#[derive(Clone, Copy, Debug, PartialEq, Eq, Structural)]
pub enum PortAction {
    /// Read the line status from this port and decide again.
    Poll { port: u16 },
    /// Read the received byte from this port.
    Read { port: u16 },
    /// Write this byte to this port.
    Write(PortWrite),
}

/// The handler for the interrupt of serial port `serial_port`. The port's
/// interrupts are switched off by `SerialPort::setup`, so nothing is to be
/// done.
pub fn interrupt_handler(serial_port: u8) {
}

} // verus!
