//! The bounded transfer loops, one step at a time, and the events and
//! actions through which a session and the owner of its connection take
//! turns.

use crate::command::{Error, Operator, Transfer, Wire};
use crate::BUFFER_SIZE;
use vstd::prelude::*;

verus! {

/// What the owner of the connection reports to a session.
#[derive(Clone, Debug)]
pub enum Event {
    /// The connection is open and the session may begin.
    Start,
    /// What was flushed has been written to the connection.
    Flushed,
    /// The bytes that a read gave: as many as were asked for, or fewer
    /// where the stream ended first.
    Received(Vec<u8>),
    /// The whole seconds that have passed since the timer was started.
    Elapsed(u64),
    /// The connection failed.
    Failed,
}

/// What a session asks the owner of the connection to do next.
#[derive(Clone, Copy, Debug, PartialEq, Eq, Structural)]
pub enum Action {
    /// Flush the endpoint and write the bytes to the connection; report
    /// `Flushed`.
    Flush,
    /// Read this many bytes from the connection; report `Received`.
    Receive(usize),
    /// Start the timer of a transfer now; report `Elapsed`.
    StartTimer,
    /// Read the timer; report `Elapsed`.
    ReadTimer,
    /// Nothing more: the session has ended.
    Stop,
}

/// Where a transfer loop stands between two steps, with the bytes counted
/// so far.
#[derive(Clone, Copy, Debug, PartialEq, Eq, Structural)]
pub enum Phase {
    /// Sending: the timer is being started, and no chunk has gone out.
    SendStart { timeout: u64 },
    /// Sending: the timer is being read after a chunk.
    SendClock { timeout: u64, written: u64 },
    /// Sending: a chunk is being flushed.
    SendChunk { timeout: u64, written: u64 },
    /// Sending: the closing `Complete` is being flushed.
    SendComplete { written: u64 },
    /// Receiving: the next command is being read.
    ReceiveCommand { read: u64 },
    /// Receiving: the payload of a chunk is being read.
    ReceivePayload { read: u64 },
}

/// What one step of a transfer loop led to.
#[derive(Clone, Copy, Debug, PartialEq, Eq, Structural)]
pub enum Outcome {
    /// The loop goes on in this phase, after this action.
    Continue(Phase, Action),
    /// The loop has ended with this many bytes counted.
    Finished(u64),
    /// The loop has failed.
    Failed(Error),
}

impl Phase {
    /// The phase in which a sending loop of `timeout` seconds begins. Its
    /// first action is `StartTimer`.
    pub open spec fn spec_sending(timeout: u64) -> Phase {
        Phase::SendStart { timeout }
    }

    /// The phase in which a receiving loop begins. Its first action is to
    /// receive a tag byte.
    pub open spec fn spec_receiving() -> Phase {
        Phase::ReceiveCommand { read: 0 }
    }

    /// Where a sending loop goes after one turn: a chunk is flushed and
    /// then the timer is read, `Complete` is flushed and then the loop
    /// has ended.
    pub open spec fn sent(timeout: u64, turn: Transfer) -> Outcome {
        match turn {
            Transfer::Chunk(total) => Outcome::Continue(
                Phase::SendChunk { timeout, written: total },
                Action::Flush,
            ),
            Transfer::Complete(total) => Outcome::Continue(
                Phase::SendComplete { written: total },
                Action::Flush,
            ),
        }
    }

    /// One step of a transfer loop on an endpoint.
    ///
    /// A sending loop starts its timer and sends a first chunk whatever
    /// the duration. After each chunk it reads the timer: while fewer than
    /// `timeout` seconds have passed it writes another chunk and flushes
    /// it, and once they have passed it writes `Complete`, flushes, and
    /// ends. A receiving loop reads a command, then the payload if the
    /// command announced one, and ends on `Complete`. A failed connection
    /// ends either loop, and so does an event that does not answer the
    /// action that was asked for.
    pub open spec fn spec_step(self, wire: Wire, event: Event) -> (Outcome, Wire) {
        match (self, event) {
            (_, Event::Failed) => (Outcome::Failed(Error::Connection), wire),
            (Phase::SendStart { timeout }, Event::Elapsed(_)) => {
                let (turn, after) = wire.write_loop(timeout, None, 0);
                (Phase::sent(timeout, turn), after)
            },
            (Phase::SendClock { timeout, written }, Event::Elapsed(elapsed)) => {
                let (turn, after) = wire.write_loop(timeout, Some(elapsed), written);
                (Phase::sent(timeout, turn), after)
            },
            (Phase::SendChunk { timeout, written }, Event::Flushed) => (
                Outcome::Continue(Phase::SendClock { timeout, written }, Action::ReadTimer),
                wire,
            ),
            (Phase::SendComplete { written }, Event::Flushed) => (Outcome::Finished(written), wire),
            (Phase::ReceiveCommand { read }, Event::Received(bytes)) => {
                let (turn, after) = wire.feed(bytes@).read_loop(read);
                match turn {
                    Ok(Transfer::Chunk(total)) => (
                        Outcome::Continue(
                            Phase::ReceivePayload { read: total },
                            Action::Receive(BUFFER_SIZE),
                        ),
                        after,
                    ),
                    Ok(Transfer::Complete(total)) => (Outcome::Finished(total), after),
                    Err(e) => (Outcome::Failed(e), after),
                }
            },
            (Phase::ReceivePayload { read }, Event::Received(bytes)) => {
                let (payload, after) = wire.feed(bytes@).receive_buffer(BUFFER_SIZE as nat);
                match payload {
                    Ok(_) => (
                        Outcome::Continue(Phase::ReceiveCommand { read }, Action::Receive(1)),
                        after,
                    ),
                    Err(e) => (Outcome::Failed(e), after),
                }
            },
            _ => (Outcome::Failed(Error::OutOfTurn), wire),
        }
    }

    /// The phase in which a sending loop of `timeout` seconds begins.
    pub fn sending(timeout: u64) -> (phase: Phase)
        ensures
            phase == Phase::spec_sending(timeout),
    {
        Phase::SendStart { timeout }
    }

    /// The phase in which a receiving loop begins.
    pub fn receiving() -> (phase: Phase)
        ensures
            phase == Phase::spec_receiving(),
    {
        Phase::ReceiveCommand { read: 0 }
    }

    /// Where a sending loop goes after one turn.
    fn after_turn(timeout: u64, turn: Transfer) -> (out: Outcome)
        ensures
            out == Phase::sent(timeout, turn),
    {
        match turn {
            Transfer::Chunk(total) => Outcome::Continue(
                Phase::SendChunk { timeout, written: total },
                Action::Flush,
            ),
            Transfer::Complete(total) => Outcome::Continue(
                Phase::SendComplete { written: total },
                Action::Flush,
            ),
        }
    }

    /// Takes one step of a transfer loop. `buff` is where a payload is
    /// put; it holds one chunk.
    pub fn step(self, operator: &mut Operator, event: Event, buff: &mut Vec<u8>) -> (out: Outcome)
        requires
            old(operator).wf(),
            old(buff)@.len() == BUFFER_SIZE,
        ensures
            final(operator).wf(),
            final(buff)@.len() == BUFFER_SIZE,
            (out, final(operator)@) == self.spec_step(old(operator)@, event),
    {
        match (self, event) {
            (_, Event::Failed) => Outcome::Failed(Error::Connection),
            (Phase::SendStart { timeout }, Event::Elapsed(_)) => {
                let turn = operator.write_loop(timeout, None, 0);
                Phase::after_turn(timeout, turn)
            },
            (Phase::SendClock { timeout, written }, Event::Elapsed(elapsed)) => {
                let turn = operator.write_loop(timeout, Some(elapsed), written);
                Phase::after_turn(timeout, turn)
            },
            (Phase::SendChunk { timeout, written }, Event::Flushed) => Outcome::Continue(
                Phase::SendClock { timeout, written },
                Action::ReadTimer,
            ),
            (Phase::SendComplete { written }, Event::Flushed) => Outcome::Finished(written),
            (Phase::ReceiveCommand { read }, Event::Received(bytes)) => {
                operator.feed(bytes.as_slice());
                match operator.read_loop(read) {
                    Ok(Transfer::Chunk(total)) => Outcome::Continue(
                        Phase::ReceivePayload { read: total },
                        Action::Receive(BUFFER_SIZE),
                    ),
                    Ok(Transfer::Complete(total)) => Outcome::Finished(total),
                    Err(e) => Outcome::Failed(e),
                }
            },
            (Phase::ReceivePayload { read }, Event::Received(bytes)) => {
                operator.feed(bytes.as_slice());
                match operator.receive_buffer(buff) {
                    Ok(_) => Outcome::Continue(Phase::ReceiveCommand { read }, Action::Receive(1)),
                    Err(e) => Outcome::Failed(e),
                }
            },
            _ => Outcome::Failed(Error::OutOfTurn),
        }
    }
}

} // verus!
