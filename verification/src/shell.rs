//! The console shell: it greets the user and echoes what is typed.
use vstd::prelude::*;
use crate::uart::UartObserver;

verus! {

/// Size of the shell's line buffer.
pub const BUF_SIZE: usize = 256;

/// The byte a terminal sends for the return key.
pub const CARRIAGE_RETURN: u8 = 0xD;
/// The byte the shell prints for a new line.
pub const LINE_FEED: u8 = 0xA;

/// What the shell prints for a received word: the return key becomes a
/// new line, any other byte is echoed as it is. Only the low byte of the
/// word counts.
pub open spec fn echo(data: u32) -> Seq<u8> {
    let c: u8 = data as u8;
    if c == CARRIAGE_RETURN {
        seq![LINE_FEED]
    } else {
        seq![c]
    }
}

/// A rule of thirty `=` signs and a new line.
pub open spec fn rule_line() -> Seq<u8> {
    Seq::new(30, |i: int| 61u8).push(LINE_FEED)
}

/// The text `Start Kernel` and a new line.
pub open spec fn title_line() -> Seq<u8> {
    seq![83u8, 116, 97, 114, 116, 32, 75, 101, 114, 110, 101, 108, LINE_FEED]
}

/// The greeting printed when the shell starts.
pub open spec fn banner() -> Seq<u8> {
    rule_line() + title_line() + rule_line()
}

/// The shell.
pub struct Shell {
    pub buf: [u8; BUF_SIZE],
}

impl UartObserver for Shell {
    open spec fn reply(&self, data: u32) -> Seq<u8> {
        echo(data)
    }

    fn notify(&self, data: u32) -> (r: Vec<u8>) {
        let c: u8 = data as u8;
        let mut out: Vec<u8> = Vec::new();
        if c == CARRIAGE_RETURN {
            out.push(LINE_FEED);
        } else {
            out.push(c);
        }
        assert(out@ =~= echo(data));
        out
    }
}

/// The shell answers a received word with its low byte, except that the
/// return key (`0x0D`) is answered with a new line (`0x0A`); every other
/// byte, control bytes included, comes back as it is, and the answer is
/// always exactly one byte.
pub proof fn lemma_shell_echo(shell: Shell, data: u32)
    ensures
        data % 256 == 0x0D ==> shell.reply(data) == seq![0x0Au8],
        data % 256 != 0x0D ==> shell.reply(data) == seq![(data % 256) as u8],
{
    assert(data as u8 as int == data % 256) by (bit_vector);
}

/// The greeting is three lines: thirty `=` signs, `Start Kernel`, and
/// thirty `=` signs again.
pub proof fn lemma_banner_text()
    ensures
        banner().len() == 75,
        forall|i: int| 0 <= i < 30 ==> #[trigger] banner()[i] == 0x3Du8 && banner()[i + 44] == 0x3Du8,
        banner()[30] == 0x0Au8 && banner()[43] == 0x0Au8 && banner()[74] == 0x0Au8,
        banner().subrange(31, 43) == seq![
            0x53u8, 0x74, 0x61, 0x72, 0x74, 0x20, 0x4B, 0x65, 0x72, 0x6E, 0x65, 0x6C,
        ],
{
    assert(banner().subrange(31, 43) =~= seq![
        0x53u8, 0x74, 0x61, 0x72, 0x74, 0x20, 0x4B, 0x65, 0x72, 0x6E, 0x65, 0x6C,
    ]);
}

fn push_rule(out: &mut Vec<u8>)
    ensures
        final(out)@ == old(out)@ + rule_line(),
{
    let mut i: usize = 0;
    let ghost start = out@;
    while i < 30
        invariant
            i <= 30,
            out@ == start + Seq::new(i as nat, |j: int| 61u8),
        decreases 30 - i,
    {
        out.push(61u8);
        i = i + 1;
        assert(out@ =~= start + Seq::new(i as nat, |j: int| 61u8));
    }
    out.push(LINE_FEED);
    assert(out@ =~= start + rule_line());
}

impl Shell {
    /// A shell with an empty line buffer.
    pub fn new() -> (s: Self)
        ensures
            forall|i: int| 0 <= i < BUF_SIZE ==> s.buf[i] == 0,
    {
        Shell { buf: [0; BUF_SIZE] }
    }

    /// The greeting the shell prints when it starts; after it the kernel
    /// idles, waiting for interrupts.
    pub fn start(&mut self) -> (r: Vec<u8>)
        ensures
            r@ == banner(),
            *final(self) == *old(self),
    {
        let mut out: Vec<u8> = Vec::new();
        push_rule(&mut out);
        let title: [u8; 13] = [83, 116, 97, 114, 116, 32, 75, 101, 114, 110, 101, 108, LINE_FEED];
        let mut i: usize = 0;
        let ghost after_rule = out@;
        while i < 13
            invariant
                i <= 13,
                title@ == title_line(),
                out@ == after_rule + title_line().take(i as int),
            decreases 13 - i,
        {
            out.push(title[i]);
            i = i + 1;
            assert(out@ =~= after_rule + title_line().take(i as int));
        }
        assert(title_line().take(13) =~= title_line());
        push_rule(&mut out);
        assert(out@ =~= banner());
        out
    }
}

} // verus!
