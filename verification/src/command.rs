//! The wire protocol: command tags, the fixed-width fields that follow
//! them, and the endpoint that frames and reads them.

use crate::BUFFER_SIZE;
use byteorder::{BigEndian, ReadBytesExt, WriteBytesExt};
use vstd::prelude::*;

verus! {

/// The reason that a server gives when it refuses a session.
#[derive(Clone, Copy, Debug, PartialEq, Eq, Structural)]
pub enum DeclineReason {
    Unknown,
    /// The server already runs as many sessions as it allows; carries
    /// that capacity.
    MaxThreadsExceed(u32),
}

/// A protocol command, framed on the wire as a single tag byte.
#[derive(Clone, Copy, Debug, PartialEq, Eq, Structural)]
pub enum Command {
    Ping,
    RequestDownstream,
    RequestUpstream,
    SendBuffer,
    Complete,
    Ready,
    Decline,
    Close,
}

/// Why a session ended without completing.
#[derive(Clone, Copy, Debug, PartialEq, Eq, Structural)]
pub enum Error {
    /// A tag byte that is assigned to no command.
    InvalidCommand(u8),
    /// A well-formed command at a point where the protocol does not allow it.
    UnexpectedCommand(Command),
    /// The ping exchange did not read a `Ping`.
    PingFailure,
    /// A fixed-width field or a chunk ended before its last byte.
    Truncated,
    /// The stream ended where a command tag was due: the peer closed the
    /// connection.
    EndOfStream,
    /// The server refused the session.
    Declined(DeclineReason),
    /// The connection failed under a read or a write.
    Connection,
    /// The driver reported something other than the outcome of the step
    /// it was asked to perform.
    OutOfTurn,
}

impl Command {
    /// The tag byte of a command.
    pub open spec fn spec_code(self) -> u8 {
        match self {
            Command::Ping => 1,
            Command::RequestDownstream => 2,
            Command::RequestUpstream => 3,
            Command::SendBuffer => 4,
            Command::Complete => 5,
            Command::Ready => 6,
            Command::Decline => 7,
            Command::Close => 100,
        }
    }

    /// The command that a tag byte stands for, if any.
    pub open spec fn spec_from_code(n: u8) -> Option<Command> {
        if n == 1 {
            Some(Command::Ping)
        } else if n == 2 {
            Some(Command::RequestDownstream)
        } else if n == 3 {
            Some(Command::RequestUpstream)
        } else if n == 4 {
            Some(Command::SendBuffer)
        } else if n == 5 {
            Some(Command::Complete)
        } else if n == 6 {
            Some(Command::Ready)
        } else if n == 7 {
            Some(Command::Decline)
        } else if n == 100 {
            Some(Command::Close)
        } else {
            None
        }
    }

    /// The result of decoding a tag byte: the command that it stands for,
    /// or the byte itself as an invalid command.
    pub open spec fn spec_decode(n: u8) -> Result<Command, Error> {
        match Command::spec_from_code(n) {
            Some(cmd) => Ok(cmd),
            None => Err(Error::InvalidCommand(n)),
        }
    }

    /// Encodes the command as its tag byte.
    pub fn code(self) -> (n: u8)
        ensures
            n == self.spec_code(),
    {
        match self {
            Command::Ping => 1,
            Command::RequestDownstream => 2,
            Command::RequestUpstream => 3,
            Command::SendBuffer => 4,
            Command::Complete => 5,
            Command::Ready => 6,
            Command::Decline => 7,
            Command::Close => 100,
        }
    }

    /// Decodes a tag byte. A byte that is assigned to no command is an
    /// error that carries the byte; it is never mapped to a command.
    pub fn from_code(n: u8) -> (r: Result<Command, Error>)
        ensures
            r == Command::spec_decode(n),
    {
        match n {
            1 => Ok(Command::Ping),
            2 => Ok(Command::RequestDownstream),
            3 => Ok(Command::RequestUpstream),
            4 => Ok(Command::SendBuffer),
            5 => Ok(Command::Complete),
            6 => Ok(Command::Ready),
            7 => Ok(Command::Decline),
            100 => Ok(Command::Close),
            _ => Err(Error::InvalidCommand(n)),
        }
    }
}

impl From<Command> for u8 {
    fn from(cmd: Command) -> (n: u8) {
        cmd.code()
    }
}

impl vstd::std_specs::convert::FromSpecImpl<Command> for u8 {
    open spec fn obeys_from_spec() -> bool {
        true
    }

    open spec fn from_spec(cmd: Command) -> u8 {
        cmd.spec_code()
    }
}

impl TryFrom<u8> for Command {
    type Error = Error;

    fn try_from(n: u8) -> (r: Result<Command, Error>) {
        Command::from_code(n)
    }
}

impl vstd::std_specs::convert::TryFromSpecImpl<u8> for Command {
    open spec fn obeys_try_from_spec() -> bool {
        true
    }

    open spec fn try_from_spec(n: u8) -> Result<Command, Error> {
        Command::spec_decode(n)
    }
}

/// Every command is decoded from its own tag byte.
pub proof fn lemma_command_round_trip(cmd: Command)
    ensures
        Command::spec_from_code(cmd.spec_code()) == Some(cmd),
{
}

/// A byte decodes to a command exactly when it is one of the eight
/// assigned tags, and then it is the tag of the command it decodes to.
pub proof fn lemma_command_codes(n: u8)
    ensures
        Command::spec_from_code(n).is_some() <==> (1 <= n <= 7 || n == 100),
        Command::spec_from_code(n) matches Some(cmd) ==> cmd.spec_code() == n,
{
}

/// Width in bytes of a duration or decline field on the wire.
pub const FIELD_SIZE: usize = 8;

/// The number that a byte string denotes when read as big-endian
/// base-256 digits, most significant byte first.
pub open spec fn be_value(bytes: Seq<u8>) -> nat
    decreases bytes.len(),
{
    if bytes.len() == 0 {
        0
    } else {
        256 * be_value(bytes.drop_last()) + bytes.last() as nat
    }
}

/// The `width` low-order base-256 digits of `v`, most significant first.
pub open spec fn be_bytes(v: nat, width: nat) -> Seq<u8>
    decreases width,
{
    if width == 0 {
        Seq::empty()
    } else {
        be_bytes(v / 256, (width - 1) as nat).push((v % 256) as u8)
    }
}

/// The number of values that `width` bytes can denote.
pub open spec fn radix(width: nat) -> nat
    decreases width,
{
    if width == 0 {
        1
    } else {
        256 * radix((width - 1) as nat)
    }
}

/// The digits of a number that fits in `width` bytes denote that number.
pub proof fn lemma_be_round_trip(v: nat, width: nat)
    requires
        v < radix(width),
    ensures
        be_bytes(v, width).len() == width,
        be_value(be_bytes(v, width)) == v,
    decreases width,
{
    if width > 0 {
        lemma_be_round_trip(v / 256, (width - 1) as nat);
        let digits = be_bytes(v, width);
        assert(digits.drop_last() =~= be_bytes(v / 256, (width - 1) as nat));
    }
}

/// A byte string is the digits of the number it denotes.
pub proof fn lemma_be_bytes_of_value(bytes: Seq<u8>)
    ensures
        be_value(bytes) < radix(bytes.len()),
        be_bytes(be_value(bytes), bytes.len()) == bytes,
    decreases bytes.len(),
{
    if bytes.len() > 0 {
        lemma_be_bytes_of_value(bytes.drop_last());
        assert(bytes =~= bytes.drop_last().push(bytes.last()));
    } else {
        assert(bytes =~= Seq::<u8>::empty());
    }
}

/// Every 64-bit value fits in eight bytes.
pub proof fn lemma_u64_fits(v: u64)
    ensures
        v < radix(8),
        radix(8) == 0x1_0000_0000_0000_0000,
{
    reveal_with_fuel(radix, 9);
}

/// Calls `byteorder::ReadBytesExt::read_u64::<BigEndian>` on `bytes` as an
/// in-memory reader. Trusted: with fewer than eight bytes the read fails;
/// otherwise it yields the big-endian value of the first eight.
#[verifier::external_body]
fn read_u64_be(bytes: &[u8]) -> (r: Option<u64>)
    ensures
        bytes@.len() < 8 ==> r.is_none(),
        bytes@.len() >= 8 ==> r.is_some() && r.unwrap() as nat == be_value(bytes@.subrange(0, 8)),
{
    let mut reader: &[u8] = bytes;
    reader.read_u64::<BigEndian>().ok()
}

/// Calls `byteorder::WriteBytesExt::write_u64::<BigEndian>` on `out` as an
/// in-memory writer. Trusted: it appends the eight big-endian bytes of `n`
/// and leaves what `out` held in place.
#[verifier::external_body]
fn write_u64_be(out: &mut Vec<u8>, n: u64)
    ensures
        final(out)@ == old(out)@ + be_bytes(n as nat, 8),
{
    out.write_u64::<BigEndian>(n).unwrap_or(());
}

impl DeclineReason {
    /// The 64-bit wire value of a reason: the discriminant in the high 32
    /// bits, the detail in the low 32 bits.
    pub open spec fn spec_encode(self) -> u64 {
        match self {
            DeclineReason::Unknown => 0,
            DeclineReason::MaxThreadsExceed(max_threads) => (0x1_0000_0000 + max_threads) as u64,
        }
    }

    /// The reason that a 64-bit wire value stands for. Every discriminant
    /// but that of `MaxThreadsExceed` reads as `Unknown`.
    pub open spec fn spec_decode(v: u64) -> DeclineReason {
        if v / 0x1_0000_0000 == 1 {
            DeclineReason::MaxThreadsExceed((v % 0x1_0000_0000) as u32)
        } else {
            DeclineReason::Unknown
        }
    }

    /// Packs the reason into its 64-bit wire value.
    pub fn encode(self) -> (v: u64)
        ensures
            v == self.spec_encode(),
    {
        match self {
            DeclineReason::MaxThreadsExceed(max_threads) => {
                let high: u64 = 1u64 << 32;
                assert(high == 0x1_0000_0000) by (bit_vector)
                    requires
                        high == 1u64 << 32,
                ;
                high + max_threads as u64
            },
            DeclineReason::Unknown => 0,
        }
    }

    /// Unpacks a 64-bit wire value. This never fails: a discriminant that
    /// is not known yields `Unknown`.
    pub fn decode(v: u64) -> (reason: DeclineReason)
        ensures
            reason == DeclineReason::spec_decode(v),
    {
        let reason: u64 = v >> 32;
        let detail: u64 = v & 0xffff_ffff;
        assert(reason == v / 0x1_0000_0000 && detail == v % 0x1_0000_0000) by (bit_vector)
            requires
                reason == v >> 32,
                detail == v & 0xffff_ffff,
        ;
        if reason == 1 {
            DeclineReason::MaxThreadsExceed(detail as u32)
        } else {
            DeclineReason::Unknown
        }
    }
}

/// A reason survives packing and unpacking.
pub proof fn lemma_decline_reason_round_trip(reason: DeclineReason)
    ensures
        DeclineReason::spec_decode(reason.spec_encode()) == reason,
{
}

/// A wire value reads as `MaxThreadsExceed` exactly when its high 32 bits
/// hold 1, and as `Unknown` for every other discriminant.
pub proof fn lemma_decline_reason_unknown_discriminant(v: u64)
    ensures
        v / 0x1_0000_0000 != 1 ==> DeclineReason::spec_decode(v) == DeclineReason::Unknown,
        v / 0x1_0000_0000 == 1 ==> DeclineReason::spec_decode(v) == DeclineReason::MaxThreadsExceed(
            (v % 0x1_0000_0000) as u32,
        ),
{
}

/// The two byte strings of an endpoint: what has arrived and is not yet
/// read, and what has been written and is not yet flushed.
pub struct Wire {
    pub pending: Seq<u8>,
    pub outgoing: Seq<u8>,
}

impl Wire {
    /// An endpoint on which nothing has arrived and nothing was written.
    pub open spec fn idle() -> Wire {
        Wire { pending: Seq::empty(), outgoing: Seq::empty() }
    }

    /// Appends bytes to what is to be sent.
    pub open spec fn put(self, bytes: Seq<u8>) -> Wire {
        Wire { pending: self.pending, outgoing: self.outgoing + bytes }
    }

    /// Drops the first `n` bytes of what has arrived.
    pub open spec fn consume(self, n: int) -> Wire {
        Wire { pending: self.pending.skip(n), outgoing: self.outgoing }
    }

    /// Adds bytes to what has arrived.
    pub open spec fn feed(self, bytes: Seq<u8>) -> Wire {
        Wire { pending: self.pending + bytes, outgoing: self.outgoing }
    }

    /// Writing a command appends its tag byte.
    pub open spec fn write(self, cmd: Command) -> Wire {
        self.put(seq![cmd.spec_code()])
    }

    /// Writing a 64-bit field appends its eight big-endian bytes.
    pub open spec fn write_field(self, v: u64) -> Wire {
        self.put(be_bytes(v as nat, 8))
    }

    /// Reading a command takes one byte, if there is one, and decodes it.
    /// An unassigned byte is taken too.
    pub open spec fn read(self) -> (Result<Command, Error>, Wire) {
        if self.pending.len() == 0 {
            (Err(Error::EndOfStream), self)
        } else {
            (Command::spec_decode(self.pending[0]), self.consume(1))
        }
    }

    /// Reading a 64-bit field takes eight bytes; with fewer at hand it
    /// fails and takes none.
    pub open spec fn read_field(self) -> (Result<u64, Error>, Wire) {
        if self.pending.len() < 8 {
            (Err(Error::Truncated), self)
        } else {
            (Ok(be_value(self.pending.take(8)) as u64), self.consume(8))
        }
    }

    /// Reading a command that has to be `expect`.
    pub open spec fn expect(self, expect: Command) -> (Result<(), Error>, Wire) {
        let (r, after) = self.read();
        match r {
            Ok(actual) => if actual == expect {
                (Ok(()), after)
            } else {
                (Err(Error::UnexpectedCommand(actual)), after)
            },
            Err(e) => (Err(e), after),
        }
    }

    /// The ping exchange reads a `Ping`; whatever else happens there is
    /// a `PingFailure`.
    pub open spec fn read_ping(self) -> (Result<(), Error>, Wire) {
        let (r, after) = self.expect(Command::Ping);
        match r {
            Ok(_) => (Ok(()), after),
            Err(_) => (Err(Error::PingFailure), after),
        }
    }

    /// The initiator's side of the ping exchange: write, then read.
    pub open spec fn ping_write_then_read(self) -> (Result<(), Error>, Wire) {
        self.write(Command::Ping).read_ping()
    }

    /// The responder's side of the ping exchange: read, then reply. No
    /// reply is written when the read failed.
    pub open spec fn ping_read_then_write(self) -> (Result<(), Error>, Wire) {
        let (r, after) = self.read_ping();
        match r {
            Ok(_) => (Ok(()), after.write(Command::Ping)),
            Err(e) => (Err(e), after),
        }
    }

    /// A request is its tag followed by the duration in seconds.
    pub open spec fn request(self, cmd: Command, secs: u64) -> Wire {
        self.write(cmd).write_field(secs)
    }

    /// A chunk is the `SendBuffer` tag followed by the payload.
    pub open spec fn send_buffer(self, buff: Seq<u8>) -> Wire {
        self.write(Command::SendBuffer).put(buff)
    }

    /// Receiving a payload of `n` bytes takes exactly `n` bytes; with
    /// fewer at hand it fails and takes none.
    pub open spec fn receive_buffer(self, n: nat) -> (Result<Seq<u8>, Error>, Wire) {
        if self.pending.len() < n {
            (Err(Error::Truncated), self)
        } else {
            (Ok(self.pending.take(n as int)), self.consume(n as int))
        }
    }

    /// A decline is its tag followed by the packed reason.
    pub open spec fn write_decline(self, reason: DeclineReason) -> Wire {
        self.write(Command::Decline).write_field(reason.spec_encode())
    }

    /// Reading a decline reason reads a field and unpacks it.
    pub open spec fn read_decline_reason(self) -> (Result<DeclineReason, Error>, Wire) {
        let (r, after) = self.read_field();
        match r {
            Ok(v) => (Ok(DeclineReason::spec_decode(v)), after),
            Err(e) => (Err(e), after),
        }
    }

    /// One turn of the sending loop. `elapsed` is the reading of the clock
    /// that followed the last chunk, in seconds since the loop began, and
    /// is `None` where no chunk has been sent yet. The first chunk is sent
    /// whatever the time. After a chunk the clock decides: once the time
    /// is up, `Complete` is written and the total stands; before that
    /// another chunk of zeros is written and counted.
    pub open spec fn write_loop(self, timeout: u64, elapsed: Option<u64>, write_bytes: u64) -> (
        Transfer,
        Wire,
    ) {
        if elapsed matches Some(secs) && secs >= timeout {
            (Transfer::Complete(write_bytes), self.write(Command::Complete))
        } else {
            (Transfer::Chunk(count_chunk(write_bytes)), self.send_buffer(zeros()))
        }
    }

    /// One turn of the receiving loop: `SendBuffer` announces a chunk,
    /// which is counted; `Complete` ends the loop with the total; any
    /// other command is unexpected.
    pub open spec fn read_loop(self, read_bytes: u64) -> (Result<Transfer, Error>, Wire) {
        let (r, after) = self.read();
        match r {
            Ok(Command::SendBuffer) => (Ok(Transfer::Chunk(count_chunk(read_bytes))), after),
            Ok(Command::Complete) => (Ok(Transfer::Complete(read_bytes)), after),
            Ok(cmd) => (Err(Error::UnexpectedCommand(cmd)), after),
            Err(e) => (Err(e), after),
        }
    }
}

/// Where a transfer loop stands after one turn; both carry the bytes
/// counted so far.
#[derive(Clone, Copy, Debug, PartialEq, Eq, Structural)]
pub enum Transfer {
    /// A chunk is under way, and the loop goes on after it.
    Chunk(u64),
    /// The loop has ended.
    Complete(u64),
}

/// The payload of a chunk that the sending loop writes: zeros.
pub open spec fn zeros() -> Seq<u8> {
    Seq::new(BUFFER_SIZE as nat, |i: int| 0u8)
}

/// A byte total with one more chunk, held at the largest 64-bit value.
pub open spec fn count_chunk(bytes: u64) -> u64 {
    if bytes + BUFFER_SIZE > u64::MAX {
        u64::MAX
    } else {
        (bytes + BUFFER_SIZE) as u64
    }
}

/// A command that is written at one end is read at the other: where the
/// tag byte of `cmd` is the next byte to be read, reading yields `cmd`
/// and takes that byte alone.
pub proof fn lemma_command_wire_round_trip(cmd: Command, rest: Seq<u8>, outgoing: Seq<u8>)
    ensures
        (Wire { pending: seq![cmd.spec_code()] + rest, outgoing }).read() == (
            Ok::<Command, Error>(cmd),
            Wire { pending: rest, outgoing },
        ),
{
    let wire = Wire { pending: seq![cmd.spec_code()] + rest, outgoing };
    assert(wire.pending.skip(1) =~= rest);
}

/// A byte that is no tag is read as an invalid command that carries it.
pub proof fn lemma_invalid_command(n: u8, rest: Seq<u8>, outgoing: Seq<u8>)
    requires
        !(1 <= n <= 7 || n == 100),
    ensures
        (Wire { pending: seq![n] + rest, outgoing }).read() == (
            Err::<Command, Error>(Error::InvalidCommand(n)),
            Wire { pending: rest, outgoing },
        ),
{
    let wire = Wire { pending: seq![n] + rest, outgoing };
    assert(wire.pending.skip(1) =~= rest);
}

/// Every 64-bit count of seconds that is written as a field is read back
/// as the same count, and reading takes the eight bytes of the field
/// alone.
pub proof fn lemma_duration_round_trip(secs: u64, rest: Seq<u8>, outgoing: Seq<u8>)
    ensures
        be_bytes(secs as nat, 8).len() == 8,
        (Wire { pending: be_bytes(secs as nat, 8) + rest, outgoing }).read_field() == (
            Ok::<u64, Error>(secs),
            Wire { pending: rest, outgoing },
        ),
{
    lemma_u64_fits(secs);
    lemma_be_round_trip(secs as nat, 8);
    let wire = Wire { pending: be_bytes(secs as nat, 8) + rest, outgoing };
    assert(wire.pending.take(8) =~= be_bytes(secs as nat, 8));
    assert(wire.pending.skip(8) =~= rest);
}

/// Every decline reason that is written as a field is read back as the
/// same reason.
pub proof fn lemma_decline_wire_round_trip(
    reason: DeclineReason,
    rest: Seq<u8>,
    outgoing: Seq<u8>,
)
    ensures
        (Wire {
            pending: be_bytes(reason.spec_encode() as nat, 8) + rest,
            outgoing,
        }).read_decline_reason() == (
            Ok::<DeclineReason, Error>(reason),
            Wire { pending: rest, outgoing },
        ),
{
    lemma_duration_round_trip(reason.spec_encode(), rest, outgoing);
    lemma_decline_reason_round_trip(reason);
}

/// `n` bytes that each hold the tag of `Ping`.
pub open spec fn pings(n: nat) -> Seq<u8> {
    Seq::new(n, |i: int| Command::Ping.spec_code())
}

/// The endpoint after `n` rounds of the responder's ping exchange, each
/// on what the round before left.
pub open spec fn ping_rounds(wire: Wire, n: nat) -> Wire
    decreases n,
{
    if n == 0 {
        wire
    } else {
        ping_rounds(wire.ping_read_then_write().1, (n - 1) as nat)
    }
}

/// Whether each of `n` rounds of the responder's ping exchange succeeds.
pub open spec fn ping_rounds_succeed(wire: Wire, n: nat) -> bool
    decreases n,
{
    n == 0 || (wire.ping_read_then_write().0.is_ok() && ping_rounds_succeed(
        wire.ping_read_then_write().1,
        (n - 1) as nat,
    ))
}

/// Any number of ping rounds on one connection succeed one after the
/// other and leave the endpoint as it was before the first: what has
/// arrived is used up to the byte, and one `Ping` was written for each
/// round.
pub proof fn lemma_ping_rounds(outgoing: Seq<u8>, n: nat)
    ensures
        ping_rounds_succeed(Wire { pending: pings(n), outgoing }, n),
        ping_rounds(Wire { pending: pings(n), outgoing }, n) == (Wire {
            pending: Seq::<u8>::empty(),
            outgoing: outgoing + pings(n),
        }),
    decreases n,
{
    let wire = Wire { pending: pings(n), outgoing };
    if n == 0 {
        assert(pings(0) =~= Seq::<u8>::empty());
        assert(outgoing + pings(0) =~= outgoing);
    } else {
        let m = (n - 1) as nat;
        assert(wire.pending.skip(1) =~= pings(m));
        let next = outgoing + seq![Command::Ping.spec_code()];
        assert(wire.ping_read_then_write().1 == (Wire { pending: pings(m), outgoing: next }));
        lemma_ping_rounds(next, m);
        assert(next + pings(m) =~= outgoing + pings(n));
    }
}

/// The endpoint of one connection, without the connection: it frames what
/// is to be sent into an output buffer and decodes what has arrived from
/// an input buffer. Whoever owns the connection moves the bytes.
pub struct Operator {
    input: Vec<u8>,
    cursor: usize,
    output: Vec<u8>,
}

impl View for Operator {
    type V = Wire;

    closed spec fn view(&self) -> Wire {
        Wire {
            pending: self.input@.subrange(self.cursor as int, self.input@.len() as int),
            outgoing: self.output@,
        }
    }
}

impl Operator {
    /// The read position lies within the input buffer.
    pub closed spec fn wf(&self) -> bool {
        self.cursor <= self.input@.len()
    }

    /// An endpoint with nothing read and nothing written.
    pub fn new() -> (operator: Operator)
        ensures
            operator.wf(),
            operator@ == Wire::idle(),
    {
        let operator = Operator { input: Vec::new(), cursor: 0, output: Vec::new() };
        assert(operator@.pending =~= Seq::<u8>::empty());
        operator
    }

    /// Hands the endpoint bytes that arrived on the connection, in order.
    pub fn feed(&mut self, bytes: &[u8])
        requires
            old(self).wf(),
        ensures
            final(self).wf(),
            final(self)@ == old(self)@.feed(bytes@),
    {
        if self.cursor == self.input.len() {
            self.cursor = 0;
            self.input.clear();
        }
        self.input.extend_from_slice(bytes);
        assert(self@.pending =~= old(self)@.pending + bytes@);
    }

    /// Takes everything written since the last flush, to be put on the
    /// connection in one piece.
    pub fn flush(&mut self) -> (bytes: Vec<u8>)
        requires
            old(self).wf(),
        ensures
            final(self).wf(),
            bytes@ == old(self)@.outgoing,
            final(self)@.outgoing == Seq::<u8>::empty(),
            final(self)@.pending == old(self)@.pending,
    {
        let mut bytes: Vec<u8> = Vec::new();
        std::mem::swap(&mut bytes, &mut self.output);
        bytes
    }

    /// Writes the tag byte of a command.
    pub fn write(&mut self, cmd: Command)
        requires
            old(self).wf(),
        ensures
            final(self).wf(),
            final(self)@ == old(self)@.write(cmd),
    {
        self.output.push(cmd.code());
        assert(self@.outgoing =~= old(self)@.outgoing + seq![cmd.spec_code()]);
    }

    /// Reads one command. `EndOfStream` says that no byte was there, which
    /// is the peer closing the connection; `InvalidCommand` says that a
    /// byte was there and is no tag.
    pub fn read(&mut self) -> (r: Result<Command, Error>)
        requires
            old(self).wf(),
        ensures
            final(self).wf(),
            (r, final(self)@) == old(self)@.read(),
    {
        if self.cursor == self.input.len() {
            assert(self@.pending =~= Seq::<u8>::empty());
            return Err(Error::EndOfStream);
        }
        let n: u8 = self.input[self.cursor];
        self.cursor = self.cursor + 1;
        assert(self@.pending =~= old(self)@.pending.skip(1));
        Command::from_code(n)
    }

    /// Writes a duration as a field of whole seconds.
    pub fn write_duration(&mut self, secs: u64)
        requires
            old(self).wf(),
        ensures
            final(self).wf(),
            final(self)@ == old(self)@.write_field(secs),
    {
        write_u64_be(&mut self.output, secs);
    }

    /// Reads a duration in whole seconds. `Truncated` says that fewer than
    /// eight bytes were there.
    pub fn read_duration(&mut self) -> (r: Result<u64, Error>)
        requires
            old(self).wf(),
        ensures
            final(self).wf(),
            (r, final(self)@) == old(self)@.read_field(),
    {
        let len: usize = self.input.len();
        let rest: &[u8] = slice_from(self.input.as_slice(), self.cursor);
        assert(rest@ =~= self@.pending);
        match read_u64_be(rest) {
            Some(v) => {
                assert(rest@.subrange(0, 8) =~= self@.pending.take(8));
                self.cursor = self.cursor + FIELD_SIZE;
                assert(self@.pending =~= old(self)@.pending.skip(8));
                Ok(v)
            },
            None => Err(Error::Truncated),
        }
    }

    /// Reads one command and holds it against the one that is due.
    pub fn expect(&mut self, expect: Command) -> (r: Result<(), Error>)
        requires
            old(self).wf(),
        ensures
            final(self).wf(),
            (r, final(self)@) == old(self)@.expect(expect),
    {
        let actual: Command = match self.read() {
            Ok(cmd) => cmd,
            Err(e) => {
                return Err(e);
            },
        };
        if actual != expect {
            Err(Error::UnexpectedCommand(actual))
        } else {
            Ok(())
        }
    }

    /// Writes a `Ping`.
    pub fn write_ping(&mut self)
        requires
            old(self).wf(),
        ensures
            final(self).wf(),
            final(self)@ == old(self)@.write(Command::Ping),
    {
        self.write(Command::Ping)
    }

    /// Reads the `Ping` of a ping exchange.
    pub fn read_ping(&mut self) -> (r: Result<(), Error>)
        requires
            old(self).wf(),
        ensures
            final(self).wf(),
            (r, final(self)@) == old(self)@.read_ping(),
    {
        match self.expect(Command::Ping) {
            Ok(_) => Ok(()),
            Err(_) => Err(Error::PingFailure),
        }
    }

    /// The initiator's ping exchange: writes a `Ping` and reads the one
    /// that the peer has sent back.
    pub fn ping_write_then_read(&mut self) -> (r: Result<(), Error>)
        requires
            old(self).wf(),
        ensures
            final(self).wf(),
            (r, final(self)@) == old(self)@.ping_write_then_read(),
    {
        self.write_ping();
        self.read_ping()
    }

    /// The responder's ping exchange: reads the peer's `Ping` and writes
    /// one back.
    pub fn ping_read_then_write(&mut self) -> (r: Result<(), Error>)
        requires
            old(self).wf(),
        ensures
            final(self).wf(),
            (r, final(self)@) == old(self)@.ping_read_then_write(),
    {
        match self.read_ping() {
            Ok(_) => {
                self.write_ping();
                Ok(())
            },
            Err(e) => Err(e),
        }
    }

    /// Asks the peer to send for `secs` seconds.
    pub fn request_downstream(&mut self, secs: u64)
        requires
            old(self).wf(),
        ensures
            final(self).wf(),
            final(self)@ == old(self)@.request(Command::RequestDownstream, secs),
    {
        self.write(Command::RequestDownstream);
        self.write_duration(secs);
    }

    /// Tells the peer that chunks will come for `secs` seconds.
    pub fn request_upstream(&mut self, secs: u64)
        requires
            old(self).wf(),
        ensures
            final(self).wf(),
            final(self)@ == old(self)@.request(Command::RequestUpstream, secs),
    {
        self.write(Command::RequestUpstream);
        self.write_duration(secs);
    }

    /// Writes one chunk: the `SendBuffer` tag and then the payload.
    pub fn send_buffer(&mut self, buff: &[u8])
        requires
            old(self).wf(),
        ensures
            final(self).wf(),
            final(self)@ == old(self)@.send_buffer(buff@),
    {
        self.write(Command::SendBuffer);
        let ghost before = self.output@;
        self.output.extend_from_slice(buff);
        assert(self.output@ =~= before + buff@);
    }

    /// Reads a payload into `buff`, as many bytes as `buff` holds. The tag
    /// that announced it has been read before. `Truncated` says that not
    /// all of it was there; `buff` is then left as it was.
    pub fn receive_buffer(&mut self, buff: &mut Vec<u8>) -> (r: Result<(), Error>)
        requires
            old(self).wf(),
        ensures
            final(self).wf(),
            final(self)@ == old(self)@.receive_buffer(old(buff)@.len()).1,
            match old(self)@.receive_buffer(old(buff)@.len()).0 {
                Ok(payload) => r.is_ok() && final(buff)@ == payload,
                Err(e) => r == Err::<(), Error>(e) && final(buff)@ == old(buff)@,
            },
    {
        let n: usize = buff.len();
        if self.input.len() - self.cursor < n {
            return Err(Error::Truncated);
        }
        let payload: &[u8] = slice_between(self.input.as_slice(), self.cursor, self.cursor + n);
        buff.clear();
        buff.extend_from_slice(payload);
        assert(buff@ =~= self@.pending.take(n as int));
        self.cursor = self.cursor + n;
        assert(self@.pending =~= old(self)@.pending.skip(n as int));
        Ok(())
    }

    /// Writes a refusal: the `Decline` tag and then the reason.
    pub fn write_decline(&mut self, reason: DeclineReason)
        requires
            old(self).wf(),
        ensures
            final(self).wf(),
            final(self)@ == old(self)@.write_decline(reason),
    {
        self.write(Command::Decline);
        self.write_decline_reason(reason);
    }

    /// Writes a decline reason as a field.
    pub fn write_decline_reason(&mut self, reason: DeclineReason)
        requires
            old(self).wf(),
        ensures
            final(self).wf(),
            final(self)@ == old(self)@.write_field(reason.spec_encode()),
    {
        let v: u64 = reason.encode();
        write_u64_be(&mut self.output, v);
    }

    /// Reads the reason that follows a `Decline` tag.
    pub fn read_decline_reason(&mut self) -> (r: Result<DeclineReason, Error>)
        requires
            old(self).wf(),
        ensures
            final(self).wf(),
            (r, final(self)@) == old(self)@.read_decline_reason(),
    {
        match self.read_duration() {
            Ok(v) => Ok(DeclineReason::decode(v)),
            Err(e) => Err(e),
        }
    }

    /// One turn of the sending loop. `elapsed` is the reading of the clock
    /// that followed the last chunk, in whole seconds since the loop
    /// began, or `None` before the first chunk; `write_bytes` is the bytes
    /// counted so far.
    pub fn write_loop(&mut self, timeout: u64, elapsed: Option<u64>, write_bytes: u64) -> (t:
        Transfer)
        requires
            old(self).wf(),
        ensures
            final(self).wf(),
            (t, final(self)@) == old(self)@.write_loop(timeout, elapsed, write_bytes),
    {
        if let Some(secs) = elapsed {
            if secs >= timeout {
                self.write(Command::Complete);
                return Transfer::Complete(write_bytes);
            }
        }
        let buff: Vec<u8> = vec![0u8; BUFFER_SIZE];
        assert(buff@ =~= zeros());
        self.send_buffer(buff.as_slice());
        Transfer::Chunk(add_chunk(write_bytes))
    }

    /// One turn of the receiving loop, on the command that is next.
    /// `read_bytes` is the bytes counted so far.
    pub fn read_loop(&mut self, read_bytes: u64) -> (r: Result<Transfer, Error>)
        requires
            old(self).wf(),
        ensures
            final(self).wf(),
            (r, final(self)@) == old(self)@.read_loop(read_bytes),
    {
        match self.read() {
            Ok(Command::SendBuffer) => Ok(Transfer::Chunk(add_chunk(read_bytes))),
            Ok(Command::Complete) => Ok(Transfer::Complete(read_bytes)),
            Ok(cmd) => Err(Error::UnexpectedCommand(cmd)),
            Err(e) => Err(e),
        }
    }
}

/// The byte total after `n` more chunks have been counted into `start`,
/// one after the other.
pub open spec fn count_chunks(start: u64, n: nat) -> u64
    decreases n,
{
    if n == 0 {
        start
    } else {
        count_chunks(count_chunk(start), (n - 1) as nat)
    }
}

/// A total that has counted `n` more chunks has grown by `n` times the
/// chunk size, as long as that fits in 64 bits, and is the largest 64-bit
/// value from then on.
pub proof fn lemma_count_chunks(start: u64, n: nat)
    ensures
        count_chunks(start, n) == if start + n * BUFFER_SIZE > u64::MAX {
            u64::MAX as int
        } else {
            start + n * BUFFER_SIZE
        },
    decreases n,
{
    if n > 0 {
        lemma_count_chunks(count_chunk(start), (n - 1) as nat);
        assert(n * BUFFER_SIZE == (n - 1) * BUFFER_SIZE + BUFFER_SIZE) by (nonlinear_arith);
        assert((n - 1) * BUFFER_SIZE >= 0) by (nonlinear_arith)
            requires
                n >= 1,
        ;
    }
}

/// The bytes of a series of chunks on the wire: for each payload the
/// `SendBuffer` tag and then the payload.
pub open spec fn frames(payloads: Seq<Seq<u8>>) -> Seq<u8>
    decreases payloads.len(),
{
    if payloads.len() == 0 {
        Seq::empty()
    } else {
        seq![Command::SendBuffer.spec_code()] + payloads[0] + frames(payloads.drop_first())
    }
}

/// A whole receiving loop on what has arrived: turn after turn, with the
/// payload of each announced chunk taken in between, until a turn ends
/// the loop or fails. It yields the total that was counted.
pub open spec fn receive_loop(wire: Wire, read_bytes: u64) -> (Result<u64, Error>, Wire)
    decreases wire.pending.len(),
{
    let (turn, after) = wire.read_loop(read_bytes);
    match turn {
        Ok(Transfer::Chunk(total)) => {
            let (payload, rest) = after.receive_buffer(BUFFER_SIZE as nat);
            match payload {
                Ok(_) => receive_loop(rest, total),
                Err(e) => (Err(e), rest),
            }
        },
        Ok(Transfer::Complete(total)) => (Ok(total), after),
        Err(e) => (Err(e), after),
    }
}

/// A whole sending loop after its first chunk, on the readings of the
/// clock that follow the chunks one by one: it yields the total once a
/// reading has ended the loop, and nothing while the readings at hand
/// leave it running.
pub open spec fn send_loop(wire: Wire, timeout: u64, readings: Seq<u64>, write_bytes: u64) -> (
    Option<u64>,
    Wire,
)
    decreases readings.len(),
{
    if readings.len() == 0 {
        (None, wire)
    } else {
        let (turn, after) = wire.write_loop(timeout, Some(readings[0]), write_bytes);
        match turn {
            Transfer::Chunk(total) => send_loop(after, timeout, readings.drop_first(), total),
            Transfer::Complete(total) => (Some(total), after),
        }
    }
}

/// A receiving loop on `m` whole chunks and a `Complete` counts `m`
/// chunks, takes exactly those bytes and writes nothing. So what a test
/// has received is a whole number of chunks: `m` times the chunk size
/// where that fits in 64 bits.
pub proof fn lemma_receive_loop(
    payloads: Seq<Seq<u8>>,
    rest: Seq<u8>,
    outgoing: Seq<u8>,
    read_bytes: u64,
)
    requires
        forall|i: int| 0 <= i < payloads.len() ==> (#[trigger] payloads[i]).len() == BUFFER_SIZE,
    ensures
        receive_loop(
            Wire {
                pending: frames(payloads) + seq![Command::Complete.spec_code()] + rest,
                outgoing,
            },
            read_bytes,
        ) == (
            Ok::<u64, Error>(count_chunks(read_bytes, payloads.len())),
            Wire { pending: rest, outgoing },
        ),
    decreases payloads.len(),
{
    let wire = Wire {
        pending: frames(payloads) + seq![Command::Complete.spec_code()] + rest,
        outgoing,
    };
    if payloads.len() == 0 {
        assert(wire.pending =~= seq![5u8] + rest);
        assert(wire.pending.skip(1) =~= rest);
    } else {
        let tail = payloads.drop_first();
        let after_tag = payloads[0] + frames(tail) + seq![Command::Complete.spec_code()] + rest;
        let after_payload = frames(tail) + seq![Command::Complete.spec_code()] + rest;
        assert(wire.pending =~= seq![4u8] + after_tag);
        assert(wire.pending.skip(1) =~= after_tag);
        assert(after_tag.skip(BUFFER_SIZE as int) =~= after_payload);
        assert forall|i: int| 0 <= i < tail.len() implies (#[trigger] tail[i]).len()
            == BUFFER_SIZE by {
            assert(tail[i] == payloads[i + 1]);
        }
        lemma_receive_loop(tail, rest, outgoing, count_chunk(read_bytes));
        let (turn, after) = wire.read_loop(read_bytes);
        assert(after == Wire { pending: after_tag, outgoing });
        let (payload, left) = after.receive_buffer(BUFFER_SIZE as nat);
        assert(left == Wire { pending: after_payload, outgoing });
    }
}

/// `n` payloads of zeros.
pub open spec fn zero_payloads(n: nat) -> Seq<Seq<u8>> {
    Seq::new(n, |i: int| zeros())
}

/// A sending loop after its first chunk, on readings of which the one at
/// index `k` is the first at or past the timeout, writes `k` more chunks
/// and then one `Complete`, and counts `k` more chunks.
pub proof fn lemma_send_loop(
    wire: Wire,
    timeout: u64,
    readings: Seq<u64>,
    k: int,
    write_bytes: u64,
)
    requires
        0 <= k < readings.len(),
        forall|i: int| 0 <= i < k ==> readings[i] < timeout,
        readings[k] >= timeout,
    ensures
        send_loop(wire, timeout, readings, write_bytes) == (
            Some(count_chunks(write_bytes, k as nat)),
            wire.put(frames(zero_payloads(k as nat)) + seq![Command::Complete.spec_code()]),
        ),
    decreases k,
{
    if k == 0 {
        assert(frames(zero_payloads(0)) + seq![5u8] =~= seq![5u8]);
    } else {
        let after = wire.send_buffer(zeros());
        let tail = readings.drop_first();
        assert forall|i: int| 0 <= i < k - 1 implies tail[i] < timeout by {
            assert(tail[i] == readings[i + 1]);
        }
        assert(tail[k - 1] == readings[k]);
        lemma_send_loop(after, timeout, tail, k - 1, count_chunk(write_bytes));
        assert(zero_payloads(k as nat).drop_first() =~= zero_payloads((k - 1) as nat));
        assert(wire.outgoing + seq![4u8] + zeros() + (frames(zero_payloads((k - 1) as nat))
            + seq![5u8]) =~= wire.outgoing + (frames(zero_payloads(k as nat)) + seq![5u8]));
    }
}

/// A whole sending loop: the first chunk goes out whatever the duration,
/// and after each chunk a reading of the clock decides. Where the reading
/// at index `k` is the first at or past the timeout, the loop writes
/// `k + 1` chunks and then one `Complete`, and its total is that of
/// `k + 1` chunks: at least one chunk, and a whole number of them.
pub proof fn lemma_write_loop(wire: Wire, timeout: u64, readings: Seq<u64>, k: int)
    requires
        0 <= k < readings.len(),
        forall|i: int| 0 <= i < k ==> readings[i] < timeout,
        readings[k] >= timeout,
    ensures
        ({
            let (first, after) = wire.write_loop(timeout, None, 0);
            &&& first == Transfer::Chunk(count_chunk(0))
            &&& send_loop(after, timeout, readings, count_chunk(0)) == (
                Some(count_chunks(0, (k + 1) as nat)),
                wire.put(
                    frames(zero_payloads((k + 1) as nat)) + seq![Command::Complete.spec_code()],
                ),
            )
            &&& count_chunks(0, (k + 1) as nat) == if (k + 1) * BUFFER_SIZE > u64::MAX {
                u64::MAX as int
            } else {
                (k + 1) * BUFFER_SIZE
            }
        }),
{
    let (first, after) = wire.write_loop(timeout, None, 0);
    lemma_send_loop(after, timeout, readings, k, count_chunk(0));
    lemma_count_chunks(0, (k + 1) as nat);
    assert(zero_payloads((k + 1) as nat).drop_first() =~= zero_payloads(k as nat));
    assert(wire.outgoing + seq![4u8] + zeros() + (frames(zero_payloads(k as nat)) + seq![5u8])
        =~= wire.outgoing + (frames(zero_payloads((k + 1) as nat)) + seq![5u8]));
}

/// Counts one more chunk into a byte total, saturating.
pub fn add_chunk(bytes: u64) -> (total: u64)
    ensures
        total == count_chunk(bytes),
{
    bytes.saturating_add(chunk_size())
}

/// The chunk size as a 64-bit count.
pub fn chunk_size() -> (n: u64)
    ensures
        n == BUFFER_SIZE,
{
    1048576
}

/// The part of `bytes` from `from` on.
fn slice_from(bytes: &[u8], from: usize) -> (rest: &[u8])
    requires
        from <= bytes@.len(),
    ensures
        rest@ == bytes@.subrange(from as int, bytes@.len() as int),
{
    slice_between(bytes, from, bytes.len())
}

/// The part of `bytes` between two positions.
fn slice_between(bytes: &[u8], from: usize, to: usize) -> (part: &[u8])
    requires
        from <= to <= bytes@.len(),
    ensures
        part@ == bytes@.subrange(from as int, to as int),
{
    vstd::slice::slice_subrange(bytes, from, to)
}

} // verus!
