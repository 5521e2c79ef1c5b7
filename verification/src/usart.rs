//! Text that the USART lessons put on the wire: the counting "hello" frame of the
//! transmitter, and the line-editing echo terminal.

use vstd::prelude::*;
use crate::text::{
    decimal_digits, decimal_value, extend_bytes, is_decimal_numeral, itoa_format_u32,
    lemma_decimal_digits_denote,
};

verus! {

/// Size of the echo terminal's line buffer; one byte of it is never filled.
pub const BUF_LENGTH: usize = 64;

/// The bytes that clear the terminal line and move the cursor to its start: `ESC [ 2 K CR`.
pub open spec fn clear_line_bytes() -> Seq<u8> {
    seq![27u8, 91u8, 50u8, 75u8, 13u8]
}

/// The prompt that starts every line of the echo terminal: `">>> "`.
pub open spec fn prompt_bytes() -> Seq<u8> {
    seq![62u8, 62u8, 62u8, 32u8]
}

/// The frame the transmitter lesson sends on each timer tick: the line is cleared, then
/// `"hello "`, the tick number in decimal, and a carriage return.
pub open spec fn hello_frame_spec(count: nat) -> Seq<u8> {
    clear_line_bytes() + seq![104u8, 101u8, 108u8, 108u8, 111u8, 32u8] + decimal_digits(count)
        + seq![13u8]
}

/// Builds the frame sent for tick number `count` (the number is formatted by `itoa`).
pub fn hello_frame(count: u32) -> (frame: Vec<u8>)
    ensures
        frame@ == hello_frame_spec(count as nat),
{
    let mut frame: Vec<u8> = Vec::new();
    frame.push(27);
    frame.push(91);
    frame.push(50);
    frame.push(75);
    frame.push(13);
    frame.push(104);
    frame.push(101);
    frame.push(108);
    frame.push(108);
    frame.push(111);
    frame.push(32);
    let number = itoa_format_u32(count);
    extend_bytes(&mut frame, number.as_slice());
    frame.push(13);
    proof {
        assert(frame@ =~= hello_frame_spec(count as nat));
    }
    frame
}

/// The prompt shown when the echo terminal starts.
pub fn prompt() -> (bytes: Vec<u8>)
    ensures
        bytes@ == prompt_bytes(),
{
    let bytes = vec![62, 62, 62, 32];
    proof {
        assert(bytes@ =~= prompt_bytes());
    }
    bytes
}

/// The reply of the echo terminal to a carriage return: a new line, the line number and
/// `": "`, the line typed so far, and a new line with the prompt.
pub open spec fn line_report(line_number: nat, line: Seq<u8>) -> Seq<u8> {
    seq![13u8, 10u8] + decimal_digits(line_number) + seq![58u8, 32u8] + line + seq![13u8, 10u8]
        + prompt_bytes()
}

/// The report of a line shows the line number in full: between the leading CR LF and the
/// `": "` stands a decimal numeral that denotes exactly `line_number`, followed by the line
/// and CR LF with the prompt.
pub proof fn lemma_line_report_shows_number(line_number: nat, line: Seq<u8>) -> (number: Seq<u8>)
    ensures
        line_report(line_number, line) == seq![13u8, 10u8] + number + seq![58u8, 32u8] + line
            + seq![13u8, 10u8, 62u8, 62u8, 62u8, 32u8],
        is_decimal_numeral(number),
        decimal_value(number) == line_number,
{
    lemma_decimal_digits_denote(line_number);
    let number = decimal_digits(line_number);
    assert(line_report(line_number, line) =~= seq![13u8, 10u8] + number + seq![58u8, 32u8]
        + line + seq![13u8, 10u8, 62u8, 62u8, 62u8, 32u8]);
    number
}

/// The transmitter's frame shows the tick number in full: after the line clear and
/// `"hello "` stands a decimal numeral that denotes exactly `count`, then a carriage return.
pub proof fn lemma_hello_frame_shows_count(count: nat) -> (number: Seq<u8>)
    ensures
        hello_frame_spec(count) == seq![27u8, 91u8, 50u8, 75u8, 13u8, 104u8, 101u8, 108u8, 108u8,
        111u8, 32u8] + number + seq![13u8],
        is_decimal_numeral(number),
        decimal_value(number) == count,
{
    lemma_decimal_digits_denote(count);
    let number = decimal_digits(count);
    assert(hello_frame_spec(count) =~= seq![27u8, 91u8, 50u8, 75u8, 13u8, 104u8, 101u8, 108u8,
    108u8, 111u8, 32u8] + number + seq![13u8]);
    number
}

/// The line after a byte other than a carriage return arrives: the byte is appended while
/// the line holds fewer than `BUF_LENGTH - 1` bytes, and dropped otherwise.
pub open spec fn typed_line(line: Seq<u8>, byte: u8) -> Seq<u8> {
    if line.len() < BUF_LENGTH - 1 {
        line.push(byte)
    } else {
        line
    }
}

/// The line after each of `bytes` (none of them a carriage return) arrives in turn.
pub open spec fn type_all(line: Seq<u8>, bytes: Seq<u8>) -> Seq<u8>
    decreases bytes.len(),
{
    if bytes.len() == 0 {
        line
    } else {
        type_all(typed_line(line, bytes[0]), bytes.drop_first())
    }
}

/// The line keeps the first `BUF_LENGTH - 1` bytes typed and drops the rest: typing
/// `bytes` after `line` gives their concatenation cut to that length.
pub proof fn lemma_line_keeps_first_bytes(line: Seq<u8>, bytes: Seq<u8>)
    requires
        line.len() <= BUF_LENGTH - 1,
    ensures
        type_all(line, bytes) == (line + bytes).take(
            if line.len() + bytes.len() < BUF_LENGTH - 1 {
                (line.len() + bytes.len()) as int
            } else {
                BUF_LENGTH - 1
            },
        ),
    decreases bytes.len(),
{
    if bytes.len() == 0 {
        assert((line + bytes).take(line.len() as int) =~= line);
    } else {
        let next = typed_line(line, bytes[0]);
        lemma_line_keeps_first_bytes(next, bytes.drop_first());
        if line.len() < BUF_LENGTH - 1 {
            assert(next + bytes.drop_first() =~= line + bytes);
        } else {
            assert((line + bytes).take(BUF_LENGTH - 1) =~= line);
            assert((next + bytes.drop_first()).take(BUF_LENGTH - 1) =~= line);
        }
    }
}

/// What the terminal answers to one received byte.
pub struct EchoReply {
    /// Bytes to send back on the serial line, in order.
    pub bytes: Vec<u8>,
    /// Whether the line buffer is to be shown on the debug channel afterwards (it is not
    /// when a byte arrives while the buffer is full).
    pub show_buffer: bool,
}

/// The line-editing echo terminal: every byte received is echoed, stored in a line buffer
/// of [`BUF_LENGTH`] bytes (of which the last is never filled), and a carriage return
/// prints the numbered line and starts the next one.
pub struct EchoTerm {
    buf: Vec<u8>,
    index: usize,
    line_count: u32,
}

impl EchoTerm {
    /// The buffer holds [`BUF_LENGTH`] bytes, the line fills less than all of it, and
    /// every byte after the line is zero.
    pub closed spec fn wf(&self) -> bool {
        &&& self.buf@.len() == BUF_LENGTH
        &&& self.index < BUF_LENGTH
        &&& forall|j: int| self.index <= j < BUF_LENGTH ==> self.buf@[j] == 0
    }

    /// The bytes of the current line, typed since the last carriage return and stored.
    pub closed spec fn line(&self) -> Seq<u8> {
        self.buf@.subrange(0, self.index as int)
    }

    /// The number that the current line gets when it is completed.
    pub closed spec fn line_number(&self) -> nat {
        self.line_count as nat
    }

    /// The whole buffer: the line followed by zero bytes.
    pub open spec fn buffer_spec(&self) -> Seq<u8> {
        self.line() + Seq::new((BUF_LENGTH - self.line().len()) as nat, |j: int| 0u8)
    }

    /// A terminal with an empty line whose first line gets number 1.
    pub fn new() -> (term: Self)
        ensures
            term.wf(),
            term.line() == Seq::<u8>::empty(),
            term.line_number() == 1,
    {
        let mut buf: Vec<u8> = Vec::new();
        let mut i: usize = 0;
        while i < BUF_LENGTH
            invariant
                i <= BUF_LENGTH,
                buf@.len() == i,
                forall|j: int| 0 <= j < i ==> buf@[j] == 0,
            decreases BUF_LENGTH - i,
        {
            buf.push(0);
            i = i + 1;
        }
        let term = EchoTerm { buf, index: 0, line_count: 1 };
        proof {
            assert(term.line() =~= Seq::<u8>::empty());
        }
        term
    }

    /// Number of bytes in the current line.
    pub fn line_len(&self) -> (len: usize)
        requires
            self.wf(),
        ensures
            len == self.line().len(),
            len < BUF_LENGTH,
    {
        self.index
    }

    /// The number the current line gets when it is completed.
    pub fn current_line_number(&self) -> (number: u32)
        requires
            self.wf(),
        ensures
            number == self.line_number(),
    {
        self.line_count
    }

    /// The whole line buffer, as the debug channel shows it.
    pub fn buffer(&self) -> (bytes: &[u8])
        requires
            self.wf(),
        ensures
            bytes@ == self.buffer_spec(),
            bytes@.len() == BUF_LENGTH,
    {
        proof {
            assert(self.buf@ =~= self.buffer_spec());
        }
        self.buf.as_slice()
    }

    /// Handles one received byte.
    ///
    /// A carriage return (13) is answered with [`line_report`] of the current line and its
    /// number, empties the line and advances the number. Any other byte is echoed; it is
    /// appended to the line unless the line already holds `BUF_LENGTH - 1` bytes, in which
    /// case it is dropped and the buffer is not shown.
    pub fn receive(&mut self, byte: u8) -> (reply: EchoReply)
        requires
            old(self).wf(),
            byte == 13 ==> old(self).line_number() < u32::MAX,
        ensures
            final(self).wf(),
            byte == 13 ==> {
                &&& reply.bytes@ == line_report(old(self).line_number(), old(self).line())
                &&& exists|number: Seq<u8>|
                    {
                        &&& is_decimal_numeral(number)
                        &&& decimal_value(number) == old(self).line_number()
                        &&& reply.bytes@ == seq![13u8, 10u8] + number + seq![58u8, 32u8] + old(
                            self,
                        ).line() + seq![13u8, 10u8, 62u8, 62u8, 62u8, 32u8]
                    }
                &&& reply.show_buffer
                &&& final(self).line() == Seq::<u8>::empty()
                &&& final(self).line_number() == old(self).line_number() + 1
            },
            byte != 13 ==> {
                &&& reply.bytes@ == seq![byte]
                &&& final(self).line_number() == old(self).line_number()
                &&& final(self).line() == typed_line(old(self).line(), byte)
                &&& reply.show_buffer == (old(self).line().len() < BUF_LENGTH - 1)
            },
    {
        if byte == 13 {
            let ghost line = self.line();
            let mut out: Vec<u8> = Vec::new();
            out.push(13);
            out.push(10);
            let number = itoa_format_u32(self.line_count);
            extend_bytes(&mut out, number.as_slice());
            out.push(58);
            out.push(32);
            let mut i: usize = 0;
            while i < self.index
                invariant
                    self.wf(),
                    self.line_count == old(self).line_count,
                    old(self).line_number() < u32::MAX,
                    line == old(self).line(),
                    i <= self.index,
                    line == self.line(),
                    out@ == seq![13u8, 10u8] + decimal_digits(self.line_count as nat) + seq![
                        58u8,
                        32u8,
                    ] + line.subrange(0, i as int),
                decreases self.index - i,
            {
                out.push(self.buf[i]);
                i = i + 1;
                proof {
                    assert(line.subrange(0, i as int) =~= line.subrange(0, i - 1).push(
                        line[i - 1],
                    ));
                }
            }
            out.push(13);
            out.push(10);
            out.push(62);
            out.push(62);
            out.push(62);
            out.push(32);
            proof {
                assert(line.subrange(0, i as int) =~= line);
                assert(out@ =~= line_report(self.line_count as nat, line));
            }
            let mut j: usize = 0;
            while j < BUF_LENGTH
                invariant
                    self.line_count == old(self).line_count,
                    old(self).line_number() < u32::MAX,
                    out@ == line_report(old(self).line_number(), line),
                    line == old(self).line(),
                    self.buf@.len() == BUF_LENGTH,
                    self.index < BUF_LENGTH,
                    j <= BUF_LENGTH,
                    forall|k: int| 0 <= k < j ==> self.buf@[k] == 0,
                decreases BUF_LENGTH - j,
            {
                self.buf.set(j, 0);
                j = j + 1;
            }
            self.index = 0;
            self.line_count = self.line_count + 1;
            proof {
                assert(self.line() =~= Seq::<u8>::empty());
                let number = lemma_line_report_shows_number(old(self).line_number(), line);
                assert(is_decimal_numeral(number) && decimal_value(number) == old(
                    self,
                ).line_number());
            }
            EchoReply { bytes: out, show_buffer: true }
        } else {
            let out = vec![byte];
            if self.index == BUF_LENGTH - 1 {
                return EchoReply { bytes: out, show_buffer: false };
            }
            let ghost before = self.line();
            let i: usize = self.index;
            self.buf.set(i, byte);
            self.index = i + 1;
            proof {
                assert(self.line() =~= before.push(byte));
            }
            EchoReply { bytes: out, show_buffer: true }
        }
    }
}

} // verus!
