//! The PL011 UART0 driver. Each operation of the driver is returned as the
//! plan of register accesses that performs it.
use vstd::prelude::*;
use crate::regs::{RegOp, Register};

verus! {

/// Masked interrupt status: receive interrupt.
pub const UART_MIS_RXMIS: u32 = 1 << 4;
/// Flag register: transmit FIFO full.
pub const UART_FR_TXFF: u32 = 1 << 5;
/// Flag register: receive FIFO empty.
pub const UART_FR_RXFE: u32 = 1 << 4;

/// The register writes that bring the UART up, in order.
pub open spec fn init_ops() -> Seq<RegOp> {
    seq![
        // disable UART0
        RegOp::Write(Register::Uart0Cr, 0x0000_0000),
        // disable pull up/down of the GPIO pins
        RegOp::Write(Register::GpioUd, 0x0000_0000),
        // clock pins 14 and 15
        RegOp::Write(Register::GpioUdclk0, 0xC000),
        RegOp::Write(Register::GpioUdclk0, 0x0000_0000),
        // clear all pending interrupts
        RegOp::Write(Register::Uart0Icr, 0x7FF),
        // 115200 baud from a 3 MHz clock: divider 1, fraction 40
        RegOp::Write(Register::Uart0Ibrd, 1),
        RegOp::Write(Register::Uart0Fbrd, 40),
        // FIFO on, 8 bits per frame
        RegOp::Write(Register::Uart0Lcrh, 0x70),
        // receive interrupt only
        RegOp::Write(Register::Uart0Imsc, UART_MIS_RXMIS),
        // enable UART, transmit and receive
        RegOp::Write(Register::Uart0Cr, 0x301),
    ]
}

/// Sending one byte: wait while the transmit FIFO is full, then write the
/// byte to the data register.
pub open spec fn char_ops(c: u8) -> Seq<RegOp> {
    seq![RegOp::WaitWhileSet(Register::Uart0Fr, UART_FR_TXFF), RegOp::Write(Register::Uart0Dr, c as u32)]
}

/// The `k`-th access of the plan that sends the bytes `s`.
pub open spec fn send_op_at(s: Seq<u8>, k: int) -> RegOp {
    char_ops(s[k / 2])[k % 2]
}

/// Sending the bytes `s`: the plan of each byte, one after the other.
pub open spec fn send_ops(s: Seq<u8>) -> Seq<RegOp> {
    Seq::new(2 * s.len(), |k: int| send_op_at(s, k))
}

/// Receiving one word: wait while the receive FIFO is empty, then read the
/// data register; the read gives the word.
pub open spec fn receive_ops() -> Seq<RegOp> {
    seq![RegOp::WaitWhileSet(Register::Uart0Fr, UART_FR_RXFE), RegOp::Read(Register::Uart0Dr)]
}

/// The ASCII character of the hexadecimal digit `d` (`0`-`9`, `A`-`F`).
pub open spec fn hex_digit(d: int) -> u8 {
    if d < 10 {
        (48 + d) as u8
    } else {
        (55 + d) as u8
    }
}

/// The `k`-th of the eight 4-bit digits of `num`, most significant first.
pub open spec fn nibble(num: u32, k: int) -> int {
    ((num >> ((28 - 4 * k) as u32)) & 0xF) as int
}

/// The eight hexadecimal digits of `num`, most significant first.
pub open spec fn hex_text(num: u32) -> Seq<u8> {
    Seq::new(8, |k: int| hex_digit(nibble(num, k)))
}

/// UART set-up: the UART is switched off first and switched on last with
/// transmit and receive enabled (bits 0, 8 and 9 of the control register);
/// the line runs 8-bit frames with FIFOs (bits 4 to 6 of the line control
/// register); only the receive interrupt (bit 4) is unmasked; and the baud
/// divisor `IBRD + FBRD / 64` is the 3 MHz UART clock over 16 times 115200
/// baud, rounded to the nearest 64th.
pub proof fn lemma_uart_init_configuration()
    ensures
        init_ops().len() == 10,
        init_ops()[0] == RegOp::Write(Register::Uart0Cr, 0),
        init_ops()[9] == RegOp::Write(Register::Uart0Cr, 0x301),
        init_ops()[7] == RegOp::Write(Register::Uart0Lcrh, 0x70),
        init_ops()[8] == RegOp::Write(Register::Uart0Imsc, 0x10),
        init_ops()[4] == RegOp::Write(Register::Uart0Icr, 0x7FF),
        init_ops()[5] matches RegOp::Write(Register::Uart0Ibrd, ibrd) && init_ops()[6] matches RegOp::Write(
            Register::Uart0Fbrd,
            fbrd,
        ) && fbrd < 64 && 64 * ibrd + fbrd == (2 * 64 * 3_000_000 / (16 * 115_200) + 1) / 2,
{
    assert(UART_MIS_RXMIS == 0x10) by (bit_vector);
    assert(2 * 64 * 3_000_000 / (16 * 115_200) == 208) by (nonlinear_arith);
    assert(init_ops()[5] == RegOp::Write(Register::Uart0Ibrd, 1));
    assert(init_ops()[6] == RegOp::Write(Register::Uart0Fbrd, 40));
}

/// Receiving waits while the receive FIFO is empty (bit 4 of the flag
/// register) and then reads the data register.
pub proof fn lemma_receive_ops()
    ensures
        receive_ops() == seq![
            RegOp::WaitWhileSet(Register::Uart0Fr, 0x10),
            RegOp::Read(Register::Uart0Dr),
        ],
        UART_MIS_RXMIS == 0x10,
{
    assert(UART_FR_RXFE == 0x10) by (bit_vector);
    assert(UART_MIS_RXMIS == 0x10) by (bit_vector);
}

/// Whether `b` is an ASCII hexadecimal digit: `0`-`9` or `A`-`F`.
pub open spec fn is_hex_char(b: u8) -> bool {
    (48 <= b <= 57) || (65 <= b <= 70)
}

/// The value of the ASCII hexadecimal digit `b`: `0`-`9` are 0 to 9 and
/// `A`-`F` are 10 to 15.
pub open spec fn hex_value(b: u8) -> int {
    if 48 <= b <= 57 {
        b - 48
    } else {
        b - 55
    }
}

/// The number written by the first `n` hexadecimal digits of `s`, most
/// significant first.
pub open spec fn hex_prefix_value(s: Seq<u8>, n: nat) -> int
    decreases n,
{
    if n == 0 {
        0
    } else {
        hex_prefix_value(s, (n - 1) as nat) * 16 + hex_value(s[n - 1])
    }
}

/// The digit table `0123456789ABCDEF`.
pub open spec fn hex_table() -> Seq<u8> {
    seq![48u8, 49, 50, 51, 52, 53, 54, 55, 56, 57, 65, 66, 67, 68, 69, 70]
}

proof fn lemma_hex_digit_in_table(d: int)
    requires
        0 <= d < 16,
    ensures
        hex_digit(d) == hex_table()[d],
        is_hex_char(hex_digit(d)),
        hex_value(hex_digit(d)) == d,
{
    if d == 0 {
        assert(hex_digit(d) == 48u8 && hex_table()[d] == 48u8);
    }
    if d == 1 {
        assert(hex_digit(d) == 49u8 && hex_table()[d] == 49u8);
    }
    if d == 2 {
        assert(hex_digit(d) == 50u8 && hex_table()[d] == 50u8);
    }
    if d == 3 {
        assert(hex_digit(d) == 51u8 && hex_table()[d] == 51u8);
    }
    if d == 4 {
        assert(hex_digit(d) == 52u8 && hex_table()[d] == 52u8);
    }
    if d == 5 {
        assert(hex_digit(d) == 53u8 && hex_table()[d] == 53u8);
    }
    if d == 6 {
        assert(hex_digit(d) == 54u8 && hex_table()[d] == 54u8);
    }
    if d == 7 {
        assert(hex_digit(d) == 55u8 && hex_table()[d] == 55u8);
    }
    if d == 8 {
        assert(hex_digit(d) == 56u8 && hex_table()[d] == 56u8);
    }
    if d == 9 {
        assert(hex_digit(d) == 57u8 && hex_table()[d] == 57u8);
    }
    if d == 10 {
        assert(hex_digit(d) == 65u8 && hex_table()[d] == 65u8);
    }
    if d == 11 {
        assert(hex_digit(d) == 66u8 && hex_table()[d] == 66u8);
    }
    if d == 12 {
        assert(hex_digit(d) == 67u8 && hex_table()[d] == 67u8);
    }
    if d == 13 {
        assert(hex_digit(d) == 68u8 && hex_table()[d] == 68u8);
    }
    if d == 14 {
        assert(hex_digit(d) == 69u8 && hex_table()[d] == 69u8);
    }
    if d == 15 {
        assert(hex_digit(d) == 70u8 && hex_table()[d] == 70u8);
    }
}

/// Sending `num` in hexadecimal writes, for each of its eight 4-bit digits
/// from the most significant down, the character of that digit in the table
/// `0123456789ABCDEF` to the data register, each after waiting for room in
/// the transmit FIFO; the eight characters are hexadecimal digits, and read
/// back in base 16 they give `num`.
pub proof fn lemma_send_hex_writes(num: u32)
    ensures
        send_ops(hex_text(num)).len() == 16,
        forall|j: int|
            0 <= j < 16 ==> #[trigger] send_ops(hex_text(num))[j] == if j % 2 == 0 {
                RegOp::WaitWhileSet(Register::Uart0Fr, 0x20)
            } else {
                RegOp::Write(
                    Register::Uart0Dr,
                    seq![48u8, 49, 50, 51, 52, 53, 54, 55, 56, 57, 65, 66, 67, 68, 69, 70][((num >> ((28 - 4 * (j / 2)) as u32)) & 0xF) as int] as u32,
                )
            },
        forall|k: int| 0 <= k < 8 ==> is_hex_char(#[trigger] hex_text(num)[k]),
        hex_prefix_value(hex_text(num), 8) == num,
{
    let t = hex_text(num);
    assert forall|k: int| 0 <= k < 8 implies {
        &&& is_hex_char(#[trigger] t[k])
        &&& t[k] == hex_table()[nibble(num, k)]
        &&& hex_value(t[k]) == nibble(num, k)
    } by {
        let sh: u32 = (28 - 4 * k) as u32;
        assert((num >> sh) & 0xF < 16) by (bit_vector);
        lemma_hex_digit_in_table(nibble(num, k));
    }
    lemma_send_ops_bytes(t);
    reveal_with_fuel(hex_prefix_value, 9);
    assert(num == ((((((((num >> 28u32) & 0xF) * 16 + ((num >> 24u32) & 0xF)) * 16 + ((num
        >> 20u32) & 0xF)) * 16 + ((num >> 16u32) & 0xF)) * 16 + ((num >> 12u32) & 0xF)) * 16 + ((
    num >> 8u32) & 0xF)) * 16 + ((num >> 4u32) & 0xF)) * 16 + ((num >> 0u32) & 0xF)) by (bit_vector);
    assert(nibble(num, 0) == (num >> 28u32) & 0xF);
    assert(nibble(num, 1) == (num >> 24u32) & 0xF);
    assert(nibble(num, 2) == (num >> 20u32) & 0xF);
    assert(nibble(num, 3) == (num >> 16u32) & 0xF);
    assert(nibble(num, 4) == (num >> 12u32) & 0xF);
    assert(nibble(num, 5) == (num >> 8u32) & 0xF);
    assert(nibble(num, 6) == (num >> 4u32) & 0xF);
    assert(nibble(num, 7) == (num >> 0u32) & 0xF);
    assert(hex_value(t[0]) == nibble(num, 0));
    assert(hex_value(t[1]) == nibble(num, 1));
    assert(hex_value(t[2]) == nibble(num, 2));
    assert(hex_value(t[3]) == nibble(num, 3));
    assert(hex_value(t[4]) == nibble(num, 4));
    assert(hex_value(t[5]) == nibble(num, 5));
    assert(hex_value(t[6]) == nibble(num, 6));
    assert(hex_value(t[7]) == nibble(num, 7));
}

/// Sending the bytes `s` is, for each byte in turn, a wait while the
/// transmit FIFO is full (bit 5 of the flag register) followed by a write of
/// exactly that byte, all eight bits of it, to the data register.
pub proof fn lemma_send_ops_bytes(s: Seq<u8>)
    ensures
        send_ops(s).len() == 2 * s.len(),
        forall|j: int|
            0 <= j < 2 * s.len() ==> #[trigger] send_ops(s)[j] == if j % 2 == 0 {
                RegOp::WaitWhileSet(Register::Uart0Fr, 0x20)
            } else {
                RegOp::Write(Register::Uart0Dr, s[j / 2] as u32)
            },
{
    assert(UART_FR_TXFF == 0x20) by (bit_vector);
}

/// Sending one byte waits while the transmit FIFO is full, then writes
/// exactly that byte to the data register.
pub proof fn lemma_char_ops_byte(c: u8)
    ensures
        char_ops(c) == seq![
            RegOp::WaitWhileSet(Register::Uart0Fr, 0x20),
            RegOp::Write(Register::Uart0Dr, c as u32),
        ],
{
    assert(UART_FR_TXFF == 0x20) by (bit_vector);
}

/// Sending bytes one string after another is sending their concatenation.
pub proof fn lemma_send_ops_concat(a: Seq<u8>, b: Seq<u8>)
    ensures
        send_ops(a + b) == send_ops(a) + send_ops(b),
{
    let lhs = send_ops(a + b);
    let rhs = send_ops(a) + send_ops(b);
    assert forall|k: int| 0 <= k < lhs.len() implies lhs[k] == rhs[k] by {
        if k < 2 * a.len() {
            assert((a + b)[k / 2] == a[k / 2]);
        } else {
            assert((k - 2 * a.len()) / 2 == k / 2 - a.len());
            assert((k - 2 * a.len()) % 2 == k % 2);
            assert((a + b)[k / 2] == b[k / 2 - a.len()]);
        }
    }
    assert(lhs =~= rhs);
}

/// Receiver of the words that come in on the UART.
pub trait UartObserver {
    /// The bytes the observer answers `data` with.
    spec fn reply(&self, data: u32) -> Seq<u8>;

    /// Takes a received word and gives the bytes to send back.
    fn notify(&self, data: u32) -> (r: Vec<u8>)
        ensures
            r@ == self.reply(data),
    ;
}

/// The UART0 device with the observer that receives what comes in.
pub struct Uart<O> {
    observer: Option<O>,
}

impl<O: UartObserver> Uart<O> {
    /// The subscribed observer, if any.
    pub closed spec fn observer(&self) -> Option<O> {
        self.observer
    }

    /// A device with no observer.
    pub fn new() -> (u: Self)
        ensures
            u.observer() == None::<O>,
    {
        Uart { observer: None }
    }

    /// Makes `observer` the receiver of incoming words, replacing any earlier one.
    pub fn subscribe(&mut self, observer: O)
        ensures
            final(self).observer() == Some(observer),
    {
        self.observer = Some(observer);
    }

    /// The plan that initialises the device.
    pub fn init(&self) -> (r: Vec<RegOp>)
        ensures
            r@ == init_ops(),
    {
        let mut ops: Vec<RegOp> = Vec::new();
        ops.push(RegOp::Write(Register::Uart0Cr, 0x0000_0000));
        ops.push(RegOp::Write(Register::GpioUd, 0x0000_0000));
        ops.push(RegOp::Write(Register::GpioUdclk0, (1 << 14) | (1 << 15)));
        ops.push(RegOp::Write(Register::GpioUdclk0, 0x0000_0000));
        ops.push(RegOp::Write(Register::Uart0Icr, 0x7FF));
        ops.push(RegOp::Write(Register::Uart0Ibrd, 1));
        ops.push(RegOp::Write(Register::Uart0Fbrd, 40));
        ops.push(RegOp::Write(Register::Uart0Lcrh, (1 << 4) | (1 << 5) | (1 << 6)));
        ops.push(RegOp::Write(Register::Uart0Imsc, UART_MIS_RXMIS));
        ops.push(RegOp::Write(Register::Uart0Cr, (1 << 0) | (1 << 8) | (1 << 9)));
        assert((1u32 << 14) | (1u32 << 15) == 0xC000) by (bit_vector);
        assert((1u32 << 4) | (1u32 << 5) | (1u32 << 6) == 0x70) by (bit_vector);
        assert((1u32 << 0) | (1u32 << 8) | (1u32 << 9) == 0x301) by (bit_vector);
        assert(ops@ =~= init_ops());
        ops
    }

    /// The plan that sends the byte `c`.
    pub fn send_char(&self, c: u8) -> (r: Vec<RegOp>)
        ensures
            r@ == char_ops(c),
    {
        let mut ops: Vec<RegOp> = Vec::new();
        ops.push(RegOp::WaitWhileSet(Register::Uart0Fr, UART_FR_TXFF));
        ops.push(RegOp::Write(Register::Uart0Dr, c as u32));
        assert(ops@ =~= char_ops(c));
        ops
    }

    /// The plan that sends the bytes of `s`, in order.
    pub fn send(&self, s: &[u8]) -> (r: Vec<RegOp>)
        ensures
            r@ == send_ops(s@),
    {
        let mut ops: Vec<RegOp> = Vec::new();
        let mut i: usize = 0;
        while i < s.len()
            invariant
                i <= s@.len(),
                ops@.len() == 2 * i,
                forall|k: int| 0 <= k < 2 * i ==> ops@[k] == send_op_at(s@, k),
            decreases s@.len() - i,
        {
            let c = self.send_char(s[i]);
            ops.push(c[0]);
            ops.push(c[1]);
            proof {
                assert(send_op_at(s@, 2 * i as int) == char_ops(s@[i as int])[0]);
                assert(send_op_at(s@, 2 * i as int + 1) == char_ops(s@[i as int])[1]);
            }
            i = i + 1;
        }
        assert(ops@ =~= send_ops(s@));
        ops
    }

    /// The plan that receives one word; the final read gives it.
    pub fn receive(&self) -> (r: Vec<RegOp>)
        ensures
            r@ == receive_ops(),
    {
        let mut ops: Vec<RegOp> = Vec::new();
        ops.push(RegOp::WaitWhileSet(Register::Uart0Fr, UART_FR_RXFE));
        ops.push(RegOp::Read(Register::Uart0Dr));
        assert(ops@ =~= receive_ops());
        ops
    }

    /// The plan that writes `num` as eight upper-case hexadecimal digits,
    /// most significant first, zero-padded.
    pub fn send_hex(&self, num: u32) -> (r: Vec<RegOp>)
        ensures
            r@ == send_ops(hex_text(num)),
    {
        let hexdigits: [u8; 16] = [
            48, 49, 50, 51, 52, 53, 54, 55, 56, 57, 65, 66, 67, 68, 69, 70,
        ];
        let mut text: Vec<u8> = Vec::new();
        let mut k: u32 = 0;
        while k < 8
            invariant
                k <= 8,
                text@.len() == k,
                forall|j: int| 0 <= j < k ==> text@[j] == hex_digit(nibble(num, j)),
                hexdigits@ == seq![48u8, 49, 50, 51, 52, 53, 54, 55, 56, 57, 65, 66, 67, 68, 69, 70],
            decreases 8 - k,
        {
            let shift: u32 = 28 - 4 * k;
            let idx: u32 = (num >> shift) & 0xF;
            assert(idx < 16) by (bit_vector)
                requires
                    idx == (num >> shift) & 0xF,
            ;
            assert(shift == (28 - 4 * (k as int)) as u32);
            assert(hexdigits@[idx as int] == hex_digit(idx as int));
            text.push(hexdigits[idx as usize]);
            k = k + 1;
        }
        assert(text@ =~= hex_text(num));
        self.send(text.as_slice())
    }

    /// Answers a UART interrupt whose masked status reads `mis`: when the
    /// receive interrupt is pending, the plan that receives one word (its
    /// final read gives the word, which then goes to `notify_observer`);
    /// otherwise `None`, and nothing is received.
    pub fn interrupt(&self, mis: u32) -> (r: Option<Vec<RegOp>>)
        ensures
            mis & UART_MIS_RXMIS == UART_MIS_RXMIS ==> r is Some && r->0@ == receive_ops(),
            mis & UART_MIS_RXMIS != UART_MIS_RXMIS ==> r is None,
    {
        if crate::regs::has_flag(mis, UART_MIS_RXMIS) {
            Some(self.receive())
        } else {
            None
        }
    }

    /// Hands the received word `data` to the observer and returns the plan
    /// that sends its answer; with no observer, nothing is sent.
    pub fn notify_observer(&self, data: u32) -> (r: Vec<RegOp>)
        ensures
            r@ == (match self.observer() {
                Some(o) => send_ops(o.reply(data)),
                None => Seq::<RegOp>::empty(),
            }),
    {
        match &self.observer {
            Some(o) => {
                let reply = o.notify(data);
                self.send(reply.as_slice())
            },
            None => Vec::new(),
        }
    }
}

} // verus!
