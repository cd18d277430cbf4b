//! The console as two file-like devices: a read source that buffers what the
//! serial backend delivers, and a write sink that passes everything through.
//!
//! Neither touches the backend itself. The caller drains the backend when the
//! source has nothing buffered and hands the bytes in; it sends what the sink
//! accepted.

use vstd::prelude::*;
use std::collections::VecDeque;

verus! {

/// Why a device refused an operation.
#[derive(Clone, Copy, Debug, PartialEq, Eq, Structural)]
pub enum FsError {
    /// Nothing to read yet: the caller is to ask again.
    Again,
    /// The device does not know the command.
    NotSupported,
}

/// What a device is ready for.
#[derive(Clone, Copy, Debug, PartialEq, Eq, Structural)]
pub struct PollStatus {
    pub read: bool,
    pub write: bool,
    pub error: bool,
}

/// Asks for the terminal's settings.
pub const TCGETS: usize = 0x5401;

/// Asks for the terminal's foreground process group.
pub const TIOCGPGRP: usize = 0x540f;

/// Sets the terminal's foreground process group.
pub const TIOCSPGRP: usize = 0x5410;

/// Asks for the terminal's window size.
pub const TIOCGWINSZ: usize = 0x5413;

/// The byte that reading a buffered character gives: its code, cut to eight
/// bits.
pub open spec fn byte_of(c: char) -> u8 {
    (c as u32 % 256) as u8
}

/// The character that a byte of the backend stands for.
pub open spec fn char_of(b: u8) -> char {
    b as char
}

/// The characters that the bytes of the backend stand for, in their order.
pub open spec fn chars_of(bytes: Seq<u8>) -> Seq<char> {
    Seq::new(bytes.len(), |i: int| char_of(bytes[i]))
}

/// A byte that went through the buffer comes out as it went in.
pub proof fn lemma_byte_round_trip(b: u8)
    ensures
        byte_of(char_of(b)) == b,
{
}

/// The read source: characters waiting to be read, oldest first.
pub struct Stdin {
    buf: VecDeque<char>,
}

impl View for Stdin {
    type V = Seq<char>;

    /// The buffered characters, oldest first.
    closed spec fn view(&self) -> Seq<char> {
        self.buf@
    }
}

impl Stdin {
    /// A source with nothing buffered.
    pub fn new() -> (r: Stdin)
        ensures
            r@ == Seq::<char>::empty(),
    {
        Stdin { buf: VecDeque::new() }
    }

    /// Whether a character is waiting.
    pub open spec fn spec_can_read(&self) -> bool {
        self@.len() > 0
    }

    /// Puts a character at the end of the buffer.
    pub fn push(&mut self, c: char)
        ensures
            final(self)@ == old(self)@.push(c),
    {
        self.buf.push_back(c);
    }

    /// Takes the oldest character out of the buffer.
    pub fn pop(&mut self) -> (c: char)
        requires
            old(self).spec_can_read(),
        ensures
            c == old(self)@[0],
            final(self)@ == old(self)@.skip(1),
    {
        let c = self.buf.pop_front().unwrap();
        assert(self@ =~= old(self)@.skip(1));
        c
    }

    /// Whether a character is waiting.
    #[verifier::when_used_as_spec(spec_can_read)]
    pub fn can_read(&self) -> (r: bool)
        ensures
            r == self.spec_can_read(),
    {
        self.buf.len() > 0
    }

    /// Puts the characters that `bytes` stand for at the end of the buffer,
    /// in their order.
    pub fn fill(&mut self, bytes: &[u8])
        ensures
            final(self)@ == old(self)@ + chars_of(bytes@),
    {
        let mut i: usize = 0;
        while i < bytes.len()
            invariant
                i <= bytes@.len(),
                self@ == old(self)@ + chars_of(bytes@.take(i as int)),
            decreases bytes@.len() - i,
        {
            let b: u8 = bytes[i];
            self.push(b as char);
            proof {
                assert(bytes@.take(i as int + 1) =~= bytes@.take(i as int).push(bytes@[i as int]));
                assert(chars_of(bytes@.take(i as int + 1)) =~= chars_of(bytes@.take(i as int)).push(
                    char_of(bytes@[i as int]),
                ));
            }
            i = i + 1;
        }
        proof {
            assert(bytes@.take(i as int) =~= bytes@);
        }
    }

    /// Reads without blocking. With a character buffered, the oldest one is
    /// taken out and written to the start of `buf`, which must have room for
    /// it; one byte is reported, and `incoming` is not looked at. With nothing
    /// buffered, `buf` is left alone, the buffer takes up `incoming` (what the
    /// backend delivered when it was drained) and the caller is told to ask
    /// again.
    pub fn read_at(&mut self, offset: usize, buf: &mut [u8], incoming: &[u8]) -> (r: Result<
        usize,
        FsError,
    >)
        requires
            old(self).spec_can_read() ==> old(buf)@.len() > 0,
        ensures
            old(self).spec_can_read() ==> {
                &&& r == Ok::<usize, FsError>(1)
                &&& final(buf)@ == old(buf)@.update(0, byte_of(old(self)@[0]))
                &&& final(self)@ == old(self)@.skip(1)
            },
            !old(self).spec_can_read() ==> {
                &&& r == Err::<usize, FsError>(FsError::Again)
                &&& final(buf)@ == old(buf)@
                &&& final(self)@ == chars_of(incoming@)
            },
    {
        if self.can_read() {
            let c = self.pop();
            buf[0] = (c as u32 % 256) as u8;
            Ok(1)
        } else {
            self.fill(incoming);
            proof {
                assert(old(self)@ + chars_of(incoming@) =~= chars_of(incoming@));
            }
            Err(FsError::Again)
        }
    }

    /// Ready to be read exactly when a character is waiting; never ready to
    /// be written, never in error. Nothing changes.
    pub fn poll(&self) -> (r: Result<PollStatus, FsError>)
        ensures
            r == Ok::<PollStatus, FsError>(
                PollStatus { read: self.spec_can_read(), write: false, error: false },
            ),
    {
        Ok(PollStatus { read: self.can_read(), write: false, error: false })
    }
}

impl core::default::Default for Stdin {
    fn default() -> (r: Stdin)
        ensures
            r@ == Seq::<char>::empty(),
    {
        Stdin::new()
    }
}

/// What a terminal command comes to: the value to report, and the word to
/// store where the command's argument points, if the command stores one.
#[derive(Clone, Copy, Debug)]
pub struct IoControl {
    pub value: usize,
    pub store: Option<u32>,
}

/// What the write sink answers to the command `cmd`. It pretends to be a
/// terminal: the queries it knows succeed with zero, and asking for the
/// foreground process group also stores a zero.
pub open spec fn io_control_reply(cmd: u32) -> Result<IoControl, FsError> {
    if cmd as usize == TCGETS || cmd as usize == TIOCGWINSZ || cmd as usize == TIOCSPGRP {
        Ok(IoControl { value: 0, store: None })
    } else if cmd as usize == TIOCGPGRP {
        Ok(IoControl { value: 0, store: Some(0) })
    } else {
        Err(FsError::NotSupported)
    }
}

/// The write sink. It buffers nothing.
#[derive(Clone, Copy, Debug, Default)]
pub struct Stdout;

impl Stdout {
    /// Accepts all of `buf`: the number of bytes of `buf` is reported, and
    /// the caller sends them on.
    pub fn write_at(&self, offset: usize, buf: &[u8]) -> (r: Result<usize, FsError>)
        ensures
            r == Ok::<usize, FsError>(buf@.len() as usize),
    {
        Ok(buf.len())
    }

    /// Always ready to be written, never to be read, never in error.
    pub fn poll(&self) -> (r: Result<PollStatus, FsError>)
        ensures
            r == Ok::<PollStatus, FsError>(PollStatus { read: false, write: true, error: false }),
    {
        Ok(PollStatus { read: false, write: true, error: false })
    }

    /// Answers a terminal command; `data` is the command's argument, which is
    /// not looked at. A command that the sink does not know is refused with
    /// `NotSupported`.
    pub fn io_control(&self, cmd: u32, data: usize) -> (r: Result<IoControl, FsError>)
        ensures
            r == io_control_reply(cmd),
    {
        let cmd = cmd as usize;
        if cmd == TCGETS || cmd == TIOCGWINSZ || cmd == TIOCSPGRP {
            Ok(IoControl { value: 0, store: None })
        } else if cmd == TIOCGPGRP {
            Ok(IoControl { value: 0, store: Some(0) })
        } else {
            Err(FsError::NotSupported)
        }
    }
}

/// The sink knows four commands and answers each of them with success and
/// the value zero; every other command is refused with `NotSupported`.
pub proof fn law_io_control_knows_four_commands(cmd: u32)
    ensures
        (cmd == 0x5401 || cmd == 0x540f || cmd == 0x5410 || cmd == 0x5413) ==> io_control_reply(
            cmd,
        ) is Ok && io_control_reply(cmd)->Ok_0.value == 0,
        !(cmd == 0x5401 || cmd == 0x540f || cmd == 0x5410 || cmd == 0x5413) ==> io_control_reply(
            cmd,
        ) == Err::<IoControl, FsError>(FsError::NotSupported),
        io_control_reply(cmd) matches Ok(reply) ==> (reply.store is Some <==> cmd == 0x540f),
{
}

/// Reading from an empty source asks the caller to try again and leaves the
/// source holding what the backend delivered; each read after that gives
/// exactly one of those bytes, in the order of their arrival, as long as one
/// is left.
pub proof fn law_drained_bytes_come_out_one_by_one(incoming: Seq<u8>, k: int)
    requires
        0 <= k < incoming.len(),
    ensures
        chars_of(incoming).skip(k).len() > 0,
        byte_of(chars_of(incoming).skip(k)[0]) == incoming[k],
        chars_of(incoming).skip(k).skip(1) == chars_of(incoming).skip(k + 1),
        chars_of(incoming).skip(incoming.len() as int).len() == 0,
{
    assert(chars_of(incoming).skip(k).skip(1) =~= chars_of(incoming).skip(k + 1));
}

} // verus!
