//! The vendor-defined echo and benchmark protocols.
//!
//! Both run over MCTP messages of the PCIe vendor-defined type. A message
//! that starts with the echo subtype `cc de f0` is sent back as it is. One
//! that starts with the bench subtype `cc de f1` is a bench command; a
//! bench request asks this device to send a run of numbered messages of a
//! given size to the requester.
use vstd::prelude::*;

use crate::error::BridgeError;

verus! {

/// Sequence number of the first message of a bench run.
pub const BENCH_SEQ_START: u32 = u32::MAX - 5;

/// Length of a bench message's header: subtype, magic and sequence number.
pub const BENCH_HEADER_LEN: usize = 9;

/// Length of a bench command's header.
pub const COMMAND_HEADER_LEN: usize = 11;

/// Length of the body of a bench request command.
pub const REQUEST_BENCH_LEN: usize = 14;

/// What a received vendor-defined message is.
#[derive(Debug, Clone, Copy, PartialEq, Eq, Structural)]
pub enum Dispatch {
    /// A bench command.
    Bench,
    /// An echo request: the reply is the message itself.
    Echo,
    /// Of another subtype: ignored.
    Ignore,
}

/// The status of a reply to a bench command.
#[derive(Debug, Clone, Copy, PartialEq, Eq, Structural)]
pub enum CommandResponse {
    Success,
    Error,
    UnknownCommand,
    BadArgument,
}

/// A run of bench messages asked for by a peer.
#[derive(Debug, Clone, Copy, PartialEq, Eq, Structural)]
pub struct BenchRequest {
    /// How many messages to send.
    pub count: u64,
    /// The length of each message.
    pub len: usize,
    /// The endpoint ID of the peer to send them to.
    pub dest: u8,
}

/// The outcome of a bench command: the reply to send back, and the run
/// it asks for, if any.
pub struct BenchReply {
    pub reply: [u8; 12],
    pub request: Option<BenchRequest>,
}

pub open spec fn is_bench(m: Seq<u8>) -> bool {
    m.len() >= 3 && m[0] == 0xcc && m[1] == 0xde && m[2] == 0xf1
}

pub open spec fn is_echo(m: Seq<u8>) -> bool {
    m.len() >= 3 && m[0] == 0xcc && m[1] == 0xde && m[2] == 0xf0
}

/// The status byte of a reply.
pub open spec fn response_code(r: CommandResponse) -> u8 {
    match r {
        CommandResponse::Success => 0,
        CommandResponse::Error => 1,
        CommandResponse::UnknownCommand => 2,
        CommandResponse::BadArgument => 3,
    }
}

/// Little-endian value of the two bytes of `b` at `at`.
pub open spec fn le16(b: Seq<u8>, at: int) -> int {
    b[at] + 256 * b[at + 1]
}

/// Little-endian value of the eight bytes of `b` at `at`.
pub open spec fn le64(b: Seq<u8>, at: int) -> int {
    b[at] + 0x100 * b[at + 1] + 0x1_0000 * b[at + 2] + 0x100_0000 * b[at + 3] + 0x1_0000_0000 * b[at
        + 4] + 0x100_0000_0000 * b[at + 5] + 0x1_0000_0000_0000 * b[at + 6] + 0x100_0000_0000_0000
        * b[at + 7]
}

/// Whether `m` starts with a bench command header this device serves:
/// bench subtype, command magic `0x22dd` and version 1, followed by the
/// command code and a four byte instance ID.
pub open spec fn is_bench_command(m: Seq<u8>) -> bool {
    &&& m.len() >= COMMAND_HEADER_LEN
    &&& is_bench(m)
    &&& m[3] == 0xdd
    &&& m[4] == 0x22
    &&& m[5] == 1
}

/// The status of the reply to command `cmd` with body `body`: only a bench
/// request is served, and it must be exactly fourteen bytes long and ask
/// for messages long enough to hold their header.
pub open spec fn command_response(cmd: u8, body: Seq<u8>) -> CommandResponse {
    if cmd == 1 {
        if body.len() != REQUEST_BENCH_LEN {
            CommandResponse::Error
        } else if le16(body, 4) < BENCH_HEADER_LEN {
            CommandResponse::BadArgument
        } else {
            CommandResponse::Success
        }
    } else if cmd == 0 {
        CommandResponse::Error
    } else {
        CommandResponse::UnknownCommand
    }
}

/// The reply to bench command `m`: its header with the command code set
/// to "response", then the status byte.
pub open spec fn reply_bytes(m: Seq<u8>, r: CommandResponse) -> Seq<u8> {
    m.subrange(0, 6) + seq![0u8] + m.subrange(7, 11) + seq![response_code(r)]
}

/// Byte `i` of a fresh bench message buffer: the bench subtype, the bench
/// magic `0xbeca`, then the low byte of the index.
pub open spec fn pattern_byte(i: int) -> u8 {
    if i == 0 {
        0xcc
    } else if i == 1 {
        0xde
    } else if i == 2 {
        0xf1
    } else if i == 3 {
        0xca
    } else if i == 4 {
        0xbe
    } else {
        (i % 256) as u8
    }
}

/// `b` with sequence number `seq` written little-endian at bytes 5 to 8.
pub open spec fn stamped(b: Seq<u8>, seq: u32) -> Seq<u8> {
    b.update(5, (seq & 0xff) as u8).update(6, ((seq >> 8) & 0xff) as u8).update(
        7,
        ((seq >> 16) & 0xff) as u8,
    ).update(8, ((seq >> 24) & 0xff) as u8)
}

/// Tells what a received vendor-defined message is.
pub fn classify(msg: &[u8]) -> (r: Dispatch)
    ensures
        is_bench(msg@) ==> r == Dispatch::Bench,
        is_echo(msg@) ==> r == Dispatch::Echo,
        !is_bench(msg@) && !is_echo(msg@) ==> r == Dispatch::Ignore,
{
    if msg.len() >= 3 && msg[0] == 0xcc && msg[1] == 0xde {
        if msg[2] == 0xf1 {
            return Dispatch::Bench;
        } else if msg[2] == 0xf0 {
            return Dispatch::Echo;
        }
    }
    Dispatch::Ignore
}

impl CommandResponse {
    /// The status byte that stands for this response.
    pub fn code(&self) -> (r: u8)
        ensures
            r == response_code(*self),
    {
        match self {
            CommandResponse::Success => 0,
            CommandResponse::Error => 1,
            CommandResponse::UnknownCommand => 2,
            CommandResponse::BadArgument => 3,
        }
    }
}

fn read_le16(b: &[u8], at: usize) -> (r: u16)
    requires
        at + 2 <= b@.len(),
    ensures
        r == le16(b@, at as int),
{
    b[at] as u16 + 256 * (b[at + 1] as u16)
}

fn read_le64(b: &[u8], at: usize) -> (r: u64)
    requires
        at + 8 <= b@.len(),
    ensures
        r == le64(b@, at as int),
{
    b[at] as u64 + 0x100 * (b[at + 1] as u64) + 0x1_0000 * (b[at + 2] as u64) + 0x100_0000 * (b[at
        + 3] as u64) + 0x1_0000_0000 * (b[at + 4] as u64) + 0x100_0000_0000 * (b[at + 5] as u64)
        + 0x1_0000_0000_0000 * (b[at + 6] as u64) + 0x100_0000_0000_0000 * (b[at + 7] as u64)
}

/// Decides on bench command `body` with code `cmd` from peer `peer`.
fn handle_command(cmd: u8, body: &[u8], peer: u8) -> (r: (CommandResponse, Option<BenchRequest>))
    ensures
        r.0 == command_response(cmd, body@),
        r.1 is Some <==> r.0 == CommandResponse::Success,
        r.1 is Some ==> r.1->Some_0 == (BenchRequest {
            count: le64(body@, 6) as u64,
            len: le16(body@, 4) as usize,
            dest: peer,
        }),
{
    if cmd == 1 {
        if body.len() != REQUEST_BENCH_LEN {
            return (CommandResponse::Error, None);
        }
        let payload_size = read_le16(body, 4);
        if (payload_size as usize) < BENCH_HEADER_LEN {
            return (CommandResponse::BadArgument, None);
        }
        let count = read_le64(body, 6);
        (
            CommandResponse::Success,
            Some(BenchRequest { count, len: payload_size as usize, dest: peer }),
        )
    } else if cmd == 0 {
        (CommandResponse::Error, None)
    } else {
        (CommandResponse::UnknownCommand, None)
    }
}

/// Handles bench command `msg` from peer `peer`: the reply to send back,
/// and the bench run it asks for.
///
/// Fails with [`BridgeError::InvalidInput`], and no reply is due, when
/// `msg` is shorter than a command header or is not a bench command of
/// the version served.
pub fn handle_request(msg: &[u8], peer: u8) -> (r: Result<BenchReply, BridgeError>)
    ensures
        !is_bench_command(msg@) ==> r is Err && r->Err_0 == BridgeError::InvalidInput,
        is_bench_command(msg@) ==> r is Ok && r->Ok_0.reply@ == reply_bytes(
            msg@,
            command_response(msg@[6], msg@.subrange(11, msg@.len() as int)),
        ) && (r->Ok_0.request is Some <==> command_response(
            msg@[6],
            msg@.subrange(11, msg@.len() as int),
        ) == CommandResponse::Success) && (r->Ok_0.request is Some ==> r->Ok_0.request->Some_0
            == (BenchRequest {
            count: le64(msg@.subrange(11, msg@.len() as int), 6) as u64,
            len: le16(msg@.subrange(11, msg@.len() as int), 4) as usize,
            dest: peer,
        })),
{
    if msg.len() < COMMAND_HEADER_LEN || msg[0] != 0xcc || msg[1] != 0xde || msg[2] != 0xf1
        || msg[3] != 0xdd || msg[4] != 0x22 || msg[5] != 1 {
        return Err(BridgeError::InvalidInput);
    }
    let body = vstd::slice::slice_subrange(msg, COMMAND_HEADER_LEN, msg.len());
    let (response, request) = handle_command(msg[6], body, peer);
    let mut reply = [0u8; 12];
    let mut i: usize = 0;
    while i < COMMAND_HEADER_LEN
        invariant
            i <= COMMAND_HEADER_LEN <= msg@.len(),
            forall|j: int| 0 <= j < i ==> reply@[j] == (if j == 6 { 0u8 } else { msg@[j] }),
        decreases COMMAND_HEADER_LEN - i,
    {
        if i == 6 {
            reply[i] = 0u8;
        } else {
            reply[i] = msg[i];
        }
        i = i + 1;
    }
    reply[11] = response.code();
    assert(reply@ =~= reply_bytes(msg@, response));
    Ok(BenchReply { reply, request })
}

/// The sequence number that follows `seq`, wrapping after `u32::MAX`.
pub fn next_seq(seq: u32) -> (r: u32)
    ensures
        r == (seq + 1) % 0x1_0000_0000,
{
    if seq == u32::MAX {
        0
    } else {
        seq + 1
    }
}

/// The bench sender: one buffer from which every message of a run is
/// sent, differing only in its sequence number.
pub struct MctpBench<const N: usize> {
    buf: [u8; N],
}

impl<const N: usize> View for MctpBench<N> {
    type V = Seq<u8>;

    closed spec fn view(&self) -> Seq<u8> {
        self.buf@
    }
}

impl<const N: usize> MctpBench<N> {
    /// Prepares `buf`, a buffer of `N` bytes, as the bench message buffer: the message header,
    /// then the low byte of each index as filler.
    ///
    /// Fails with [`BridgeError::BadArgument`] when `buf` cannot hold a
    /// message header.
    pub fn new(buf: [u8; N]) -> (r: Result<MctpBench<N>, BridgeError>)
        ensures
            buf@.len() < BENCH_HEADER_LEN ==> r is Err && r->Err_0 == BridgeError::BadArgument,
            buf@.len() >= BENCH_HEADER_LEN ==> r is Ok && r->Ok_0@ == Seq::new(
                buf@.len(),
                |i: int| pattern_byte(i),
            ),
    {
        if N < BENCH_HEADER_LEN {
            return Err(BridgeError::BadArgument);
        }
        let mut buf = buf;
        let n = N;
        let mut i: usize = 0;
        while i < n
            invariant
                buf@.len() == n,
                n >= BENCH_HEADER_LEN,
                i <= n,
                forall|j: int| 0 <= j < i ==> #[trigger] buf@[j] == (j % 256) as u8,
            decreases n - i,
        {
            buf[i] = (i % 256) as u8;
            i = i + 1;
        }
        buf[0] = 0xcc;
        buf[1] = 0xde;
        buf[2] = 0xf1;
        buf[3] = 0xca;
        buf[4] = 0xbe;
        assert(buf@ =~= Seq::new(n as nat, |i: int| pattern_byte(i)));
        Ok(MctpBench { buf })
    }

    /// The bench message of `len` bytes with sequence number `seq`.
    ///
    /// Fails with [`BridgeError::BadArgument`], leaving the buffer as it
    /// was, when `len` is too short for the header or longer than the
    /// buffer.
    pub fn message(&mut self, len: usize, seq: u32) -> (r: Result<&[u8], BridgeError>)
        ensures
            !(BENCH_HEADER_LEN <= len <= old(self)@.len()) ==> r is Err && r->Err_0
                == BridgeError::BadArgument && final(self)@ == old(self)@,
            BENCH_HEADER_LEN <= len <= old(self)@.len() ==> r is Ok && final(self)@ == stamped(
                old(self)@,
                seq,
            ) && r->Ok_0@ == final(self)@.subrange(0, len as int),
    {
        if len < BENCH_HEADER_LEN || len > N {
            return Err(BridgeError::BadArgument);
        }
        self.buf[5] = (seq & 0xff) as u8;
        self.buf[6] = ((seq >> 8) & 0xff) as u8;
        self.buf[7] = ((seq >> 16) & 0xff) as u8;
        self.buf[8] = ((seq >> 24) & 0xff) as u8;
        Ok(vstd::slice::slice_subrange(self.buf.as_slice(), 0, len))
    }
}

} // verus!
