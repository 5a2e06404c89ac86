//! The server side: the admission controller, which holds the number of
//! running sessions against a capacity, and the worker, the protocol
//! state machine of one accepted connection.

use crate::command::{Command, DeclineReason, Error, Operator, Wire};
use crate::transfer::{Action, Event, Outcome, Phase};
use crate::BUFFER_SIZE;
use std::sync::atomic::{AtomicUsize, Ordering};
use vstd::prelude::*;

verus! {

/// Capacity of a server that is given none.
pub const DEFAULT_MAX_THREADS: u32 = 100;

/// The decision on a connection that arrives while `active` sessions run
/// on a server of the given capacity.
pub open spec fn admission(active: nat, capacity: u32) -> Result<(), DeclineReason> {
    if active >= capacity {
        Err(DeclineReason::MaxThreadsExceed(capacity))
    } else {
        Ok(())
    }
}

/// Decides on a connection: it is declined, with the capacity as the
/// reason, exactly when the sessions that run have reached the capacity.
pub fn decide(active: usize, capacity: u32) -> (r: Result<(), DeclineReason>)
    ensures
        r == admission(active as nat, capacity),
{
    if active >= capacity as usize {
        Err(DeclineReason::MaxThreadsExceed(capacity))
    } else {
        Ok(())
    }
}

/// The session counter as a number, as it moves when connections arrive
/// and sessions end one after the other.
pub struct Counter {
    pub active: nat,
    pub capacity: u32,
}

impl Counter {
    /// The counter after one connection has arrived: an admitted one is
    /// counted, a declined one is not.
    pub open spec fn attempt(self) -> Counter {
        if admission(self.active, self.capacity).is_ok() {
            Counter { active: self.active + 1, capacity: self.capacity }
        } else {
            self
        }
    }

    /// The counter after one session has ended.
    pub open spec fn finish(self) -> Counter
        recommends
            self.active > 0,
    {
        Counter { active: (self.active - 1) as nat, capacity: self.capacity }
    }

    /// The counter after `n` connections have arrived and no session has
    /// ended.
    pub open spec fn attempts(self, n: nat) -> Counter
        decreases n,
    {
        if n == 0 {
            self
        } else {
            self.attempt().attempts((n - 1) as nat)
        }
    }

    /// How many of `n` arriving connections are admitted when no session
    /// ends meanwhile.
    pub open spec fn admitted(self, n: nat) -> nat
        decreases n,
    {
        if n == 0 {
            0
        } else if admission(self.active, self.capacity).is_ok() {
            1 + self.attempt().admitted((n - 1) as nat)
        } else {
            self.attempt().admitted((n - 1) as nat)
        }
    }

    /// The counter after `n` sessions have ended.
    pub open spec fn finishes(self, n: nat) -> Counter
        decreases n,
    {
        if n == 0 {
            self
        } else {
            self.finish().finishes((n - 1) as nat)
        }
    }
}

/// Of `n` connections that arrive with no session ending meanwhile, as
/// many are admitted as there is room for; each admitted one is counted,
/// and the count never passes the capacity.
pub proof fn lemma_attempts(c: Counter, n: nat)
    requires
        c.active <= c.capacity,
    ensures
        c.admitted(n) == if n <= c.capacity - c.active {
            n
        } else {
            (c.capacity - c.active) as nat
        },
        c.attempts(n).active == c.active + c.admitted(n),
        c.attempts(n).capacity == c.capacity,
        c.attempts(n).active <= c.capacity,
    decreases n,
{
    if n > 0 {
        lemma_attempts(c.attempt(), (n - 1) as nat);
    }
}

/// When `n` of the counted sessions end, the count goes down by `n`, and
/// it does not go below zero on the way.
pub proof fn lemma_finishes(c: Counter, n: nat)
    requires
        n <= c.active,
    ensures
        c.finishes(n).active == c.active - n,
        c.finishes(n).capacity == c.capacity,
    decreases n,
{
    if n > 0 {
        lemma_finishes(c.finish(), (n - 1) as nat);
    }
}

/// With capacity `k` and no session running, `k + 1` connections that
/// arrive together give `k` sessions and one refusal, which carries
/// `MaxThreadsExceed(k)`; when the `k` sessions have ended, the counter is
/// back at zero.
pub proof fn lemma_admission_at_capacity(k: u32)
    ensures
        ({
            let idle = Counter { active: 0, capacity: k };
            &&& idle.admitted(k as nat) == k
            &&& idle.admitted((k + 1) as nat) == k
            &&& admission(idle.attempts(k as nat).active, k) == Err::<(), DeclineReason>(
                DeclineReason::MaxThreadsExceed(k),
            )
            &&& idle.attempts((k + 1) as nat).active == k
            &&& idle.attempts((k + 1) as nat).finishes(k as nat).active == 0
        }),
{
    let idle = Counter { active: 0, capacity: k };
    lemma_attempts(idle, k as nat);
    lemma_attempts(idle, (k + 1) as nat);
    lemma_finishes(idle.attempts((k + 1) as nat), k as nat);
}

/// The right of one admitted session to be counted out again. Only an
/// admission gives one, and ending the session takes it.
pub struct Slot {
    held: (),
}

/// The admission controller: the capacity, fixed from the start, and the
/// count of the sessions that run, which all workers share.
pub struct Dispatcher {
    max_workers: u32,
    active_workers: AtomicUsize,
}

impl Dispatcher {
    /// The capacity that the controller was made with.
    pub closed spec fn capacity(&self) -> u32 {
        self.max_workers
    }

    /// A controller of the given capacity, with no session running.
    pub fn new(max_threads: u32) -> (dispatcher: Dispatcher)
        ensures
            dispatcher.capacity() == max_threads,
    {
        Dispatcher { active_workers: AtomicUsize::new(0), max_workers: max_threads }
    }

    /// The capacity.
    pub fn max_workers(&self) -> (n: u32)
        ensures
            n == self.capacity(),
    {
        self.max_workers
    }

    /// The number of sessions counted at this moment. Other threads move
    /// the counter, so nothing is promised of the number.
    pub fn active_workers(&self) -> usize {
        self.active_workers.load(Ordering::Relaxed)
    }

    /// Decides on a connection that has arrived, by `decide` on the count
    /// read at this moment, and counts it in if it is admitted. The count
    /// is read first and raised afterwards, in two steps, so connections
    /// that arrive at the same instant may all be admitted on the last
    /// free place. Whatever the count was, a refusal carries the capacity,
    /// and a controller of capacity zero refuses.
    pub fn dispatch(&self) -> (r: Result<Slot, DeclineReason>)
        ensures
            r matches Err(reason) ==> reason == DeclineReason::MaxThreadsExceed(self.capacity()),
            self.capacity() == 0 ==> r.is_err(),
    {
        let current_workers: usize = self.active_workers.load(Ordering::Relaxed);
        match decide(current_workers, self.max_workers) {
            Ok(_) => {
                self.active_workers.fetch_add(1, Ordering::Relaxed);
                Ok(Slot { held: () })
            },
            Err(reason) => Err(reason),
        }
    }

    /// The refusal of a connection, as the bytes to put on it: a throwaway
    /// endpoint writes `Decline` with the capacity as the reason.
    pub fn decline(&self) -> (bytes: Vec<u8>)
        ensures
            bytes@ == Wire::idle().write_decline(
                DeclineReason::MaxThreadsExceed(self.capacity()),
            ).outgoing,
    {
        let mut operator = Operator::new();
        operator.write_decline(DeclineReason::MaxThreadsExceed(self.max_workers));
        operator.flush()
    }

    /// Counts out a session that has ended, on whatever path it ended.
    pub fn release(&self, slot: Slot) {
        self.active_workers.fetch_sub(1, Ordering::Relaxed);
    }
}

/// What a worker in its command loop is busy with.
#[derive(Clone, Copy, Debug, PartialEq, Eq, Structural)]
pub enum Task {
    /// Nothing: the next command is being read.
    Idle,
    /// A downstream test was requested, and its duration is being read.
    DownstreamDuration,
    /// An upstream test was announced, and its duration is being read.
    UpstreamDuration,
    /// A transfer is under way.
    Busy(Phase),
}

/// Where a worker stands in the protocol.
#[derive(Clone, Copy, Debug, PartialEq, Eq, Structural)]
pub enum State {
    /// Nothing has been sent yet.
    AwaitReady,
    /// `Ready` is being flushed.
    Readying,
    /// The peer's `Ping` is being read.
    Pinging,
    /// The `Ping` in reply is being flushed.
    Ponging,
    /// The handshake is done, and commands are served.
    CommandLoop(Task),
    /// The session has ended as it should.
    Closed,
    /// The session has ended on an error.
    Error(Error),
}

/// A worker as its contracts see it: its state, the bytes of its endpoint,
/// and the totals of the last transfer in each direction.
pub struct Session {
    pub state: State,
    pub wire: Wire,
    pub written: u64,
    pub read: u64,
}

impl Session {
    /// The session in another state.
    pub open spec fn at(self, state: State) -> Session {
        Session { state, ..self }
    }

    /// The session with other bytes in its endpoint.
    pub open spec fn on(self, wire: Wire) -> Session {
        Session { wire, ..self }
    }

    /// The session ended on an error, which stops it.
    pub open spec fn fail(self, e: Error) -> (Session, Action) {
        (self.at(State::Error(e)), Action::Stop)
    }

    /// The session with the total of a finished transfer noted: that of
    /// a sending loop as written, that of a receiving loop as read.
    pub open spec fn note(self, phase: Phase, total: u64) -> Session {
        match phase {
            Phase::ReceiveCommand { .. } | Phase::ReceivePayload { .. } => Session {
                read: total,
                ..self
            },
            _ => Session { written: total, ..self },
        }
    }

    /// The step of an idle worker on the bytes of the next command. The
    /// end of the stream counts as `Close`; the two requests lead to the
    /// reading of their duration; any other command ends the session as
    /// unexpected, and a byte that is no command as invalid.
    pub open spec fn serve(self, bytes: Seq<u8>) -> (Session, Action) {
        let (r, wire) = self.wire.feed(bytes).read();
        let s = self.on(wire);
        match r {
            Err(Error::EndOfStream) => (s.at(State::Closed), Action::Stop),
            Ok(Command::Close) => (s.at(State::Closed), Action::Stop),
            Ok(Command::RequestDownstream) => (
                s.at(State::CommandLoop(Task::DownstreamDuration)),
                Action::Receive(8),
            ),
            Ok(Command::RequestUpstream) => (
                s.at(State::CommandLoop(Task::UpstreamDuration)),
                Action::Receive(8),
            ),
            Ok(cmd) => s.fail(Error::UnexpectedCommand(cmd)),
            Err(e) => s.fail(e),
        }
    }

    /// The step of a worker on the bytes of a requested duration: a
    /// downstream test starts the timer of a sending loop with that
    /// duration, an upstream test begins a receiving loop.
    pub open spec fn begin(self, downstream: bool, bytes: Seq<u8>) -> (Session, Action) {
        let (r, wire) = self.wire.feed(bytes).read_field();
        let s = self.on(wire);
        match r {
            Ok(secs) => if downstream {
                (
                    s.at(State::CommandLoop(Task::Busy(Phase::spec_sending(secs)))),
                    Action::StartTimer,
                )
            } else {
                (
                    s.at(State::CommandLoop(Task::Busy(Phase::spec_receiving()))),
                    Action::Receive(1),
                )
            },
            Err(e) => s.fail(e),
        }
    }

    /// The step of a worker in a transfer: the loop takes its step, and
    /// when it has finished the worker is idle again and reads the next
    /// command.
    pub open spec fn transfer(self, phase: Phase, event: Event) -> (Session, Action) {
        let (out, wire) = phase.spec_step(self.wire, event);
        let s = self.on(wire);
        match out {
            Outcome::Continue(next, action) => (
                s.at(State::CommandLoop(Task::Busy(next))),
                action,
            ),
            Outcome::Finished(total) => (
                s.note(phase, total).at(State::CommandLoop(Task::Idle)),
                Action::Receive(1),
            ),
            Outcome::Failed(e) => s.fail(e),
        }
    }

    /// One step of a worker.
    ///
    /// A session that has ended stays as it is. A failed connection ends
    /// it. Before the command loop the worker sends `Ready`, reads the
    /// peer's `Ping` and sends one back; a session whose ping exchange
    /// fails ends before any transfer. An event that does not answer the
    /// action that was asked for ends the session as out of turn.
    pub open spec fn run(self, event: Event) -> (Session, Action) {
        match (self.state, event) {
            (State::Closed, _) => (self, Action::Stop),
            (State::Error(_), _) => (self, Action::Stop),
            (_, Event::Failed) => self.fail(Error::Connection),
            (State::AwaitReady, Event::Start) => (
                self.on(self.wire.write(Command::Ready)).at(State::Readying),
                Action::Flush,
            ),
            (State::Readying, Event::Flushed) => (self.at(State::Pinging), Action::Receive(1)),
            (State::Pinging, Event::Received(bytes)) => {
                let (r, wire) = self.wire.feed(bytes@).ping_read_then_write();
                match r {
                    Ok(_) => (self.on(wire).at(State::Ponging), Action::Flush),
                    Err(e) => self.on(wire).fail(e),
                }
            },
            (State::Ponging, Event::Flushed) => (
                self.at(State::CommandLoop(Task::Idle)),
                Action::Receive(1),
            ),
            (State::CommandLoop(Task::Idle), Event::Received(bytes)) => self.serve(bytes@),
            (State::CommandLoop(Task::DownstreamDuration), Event::Received(bytes)) => self.begin(
                true,
                bytes@,
            ),
            (State::CommandLoop(Task::UpstreamDuration), Event::Received(bytes)) => self.begin(
                false,
                bytes@,
            ),
            (State::CommandLoop(Task::Busy(phase)), event) => self.transfer(phase, event),
            _ => self.fail(Error::OutOfTurn),
        }
    }
}

/// A session that has ended takes no further step: whatever is reported
/// to it, it stays as it is and asks for nothing.
pub proof fn lemma_ended_session_stays(s: Session, event: Event)
    requires
        s.state == State::Closed || s.state is Error,
    ensures
        s.run(event) == (s, Action::Stop),
{
}

/// The handshake of a worker: it sends `Ready`, reads the peer's `Ping`
/// and sends one back, after which it is idle in its command loop with
/// nothing left to read, and its transfer totals are as they were.
pub proof fn lemma_handshake(s: Session, ping: Vec<u8>)
    requires
        s.state == State::AwaitReady,
        s.wire.pending == Seq::<u8>::empty(),
        ping@ == seq![Command::Ping.spec_code()],
    ensures
        ({
            let (s1, a1) = s.run(Event::Start);
            let (s2, a2) = s1.run(Event::Flushed);
            let (s3, a3) = s2.run(Event::Received(ping));
            let (s4, a4) = s3.run(Event::Flushed);
            &&& a1 == Action::Flush && s1.state == State::Readying
            &&& a2 == Action::Receive(1) && s2.state == State::Pinging
            &&& a3 == Action::Flush && s3.state == State::Ponging
            &&& a4 == Action::Receive(1) && s4.state == State::CommandLoop(Task::Idle)
            &&& s4.wire.pending == Seq::<u8>::empty()
            &&& s4.wire.outgoing == s.wire.outgoing + seq![
                Command::Ready.spec_code(),
                Command::Ping.spec_code(),
            ]
            &&& s4.written == s.written && s4.read == s.read
        }),
{
    let (s1, a1) = s.run(Event::Start);
    let (s2, a2) = s1.run(Event::Flushed);
    let fed = s2.wire.feed(ping@);
    assert(fed.pending =~= seq![1u8]);
    assert(fed.pending.skip(1) =~= Seq::<u8>::empty());
    let (s3, a3) = s2.run(Event::Received(ping));
    let (s4, a4) = s3.run(Event::Flushed);
    assert(s4.wire.outgoing =~= s.wire.outgoing + seq![6u8, 1u8]);
}

/// A worker that reads anything but a `Ping` in its handshake, or finds
/// the stream at its end, stops with `PingFailure` and writes no reply.
pub proof fn lemma_handshake_failure(s: Session, bytes: Vec<u8>)
    requires
        s.state == State::Pinging,
        s.wire.pending == Seq::<u8>::empty(),
        bytes@.len() == 0 || bytes@[0] != Command::Ping.spec_code(),
    ensures
        s.run(Event::Received(bytes)).0.state == State::Error(Error::PingFailure),
        s.run(Event::Received(bytes)).0.wire.outgoing == s.wire.outgoing,
        s.run(Event::Received(bytes)).1 == Action::Stop,
{
    let fed = s.wire.feed(bytes@);
    assert(fed.pending =~= bytes@);
}

/// An idle worker whose peer closes the connection, or sends `Close`,
/// ends its session cleanly.
pub proof fn lemma_close(s: Session, bytes: Vec<u8>)
    requires
        s.state == State::CommandLoop(Task::Idle),
        s.wire.pending == Seq::<u8>::empty(),
        bytes@.len() == 0 || bytes@ == seq![Command::Close.spec_code()],
    ensures
        s.run(Event::Received(bytes)).0.state == State::Closed,
        s.run(Event::Received(bytes)).1 == Action::Stop,
{
    let fed = s.wire.feed(bytes@);
    assert(fed.pending =~= bytes@);
}

/// An idle worker that reads a byte which is no command ends its session
/// with that byte as an invalid command; one that reads a command other
/// than the two requests and `Close` ends it with that command as
/// unexpected.
pub proof fn lemma_command_loop_rejects(s: Session, bytes: Vec<u8>)
    requires
        s.state == State::CommandLoop(Task::Idle),
        s.wire.pending == Seq::<u8>::empty(),
        bytes@.len() == 1,
    ensures
        Command::spec_from_code(bytes@[0]).is_none() ==> s.run(Event::Received(bytes)).0.state
            == State::Error(Error::InvalidCommand(bytes@[0])),
        Command::spec_from_code(bytes@[0]) matches Some(cmd) ==> (cmd != Command::Close && cmd
            != Command::RequestDownstream && cmd != Command::RequestUpstream ==> s.run(
            Event::Received(bytes),
        ).0.state == State::Error(Error::UnexpectedCommand(cmd))),
{
    let fed = s.wire.feed(bytes@);
    assert(fed.pending =~= bytes@);
}

/// The protocol state machine of one accepted connection. It owns the
/// endpoint of the connection and takes one step for each event that the
/// owner of the connection reports.
pub struct Worker {
    peer: String,
    operator: Operator,
    buff: Vec<u8>,
    state: State,
    written: u64,
    read: u64,
}

impl View for Worker {
    type V = Session;

    closed spec fn view(&self) -> Session {
        Session {
            state: self.state,
            wire: self.operator@,
            written: self.written,
            read: self.read,
        }
    }
}

impl Worker {
    /// The endpoint is well formed and the payload buffer holds one chunk.
    pub closed spec fn wf(&self) -> bool {
        &&& self.operator.wf()
        &&& self.buff@.len() == BUFFER_SIZE
    }

    /// The name of the peer that the worker was made for.
    pub closed spec fn spec_peer(&self) -> Seq<char> {
        self.peer@
    }

    /// A worker for the connection of `peer`, with nothing sent or read.
    pub fn new(peer: String) -> (worker: Worker)
        ensures
            worker.wf(),
            worker.spec_peer() == peer@,
            worker@ == (Session {
                state: State::AwaitReady,
                wire: Wire::idle(),
                written: 0,
                read: 0,
            }),
    {
        Worker {
            peer,
            operator: Operator::new(),
            buff: vec![0u8; BUFFER_SIZE],
            state: State::AwaitReady,
            written: 0,
            read: 0,
        }
    }

    /// The name of the peer.
    pub fn peer(&self) -> (peer: &String)
        ensures
            peer@ == self.spec_peer(),
    {
        &self.peer
    }

    /// The state of the worker.
    pub fn state(&self) -> (state: State)
        ensures
            state == self@.state,
    {
        self.state
    }

    /// The bytes counted by the last downstream transfer that finished.
    pub fn written(&self) -> (bytes: u64)
        ensures
            bytes == self@.written,
    {
        self.written
    }

    /// The bytes counted by the last upstream transfer that finished.
    pub fn read(&self) -> (bytes: u64)
        ensures
            bytes == self@.read,
    {
        self.read
    }

    /// Takes what the worker has written since the last flush.
    pub fn flush(&mut self) -> (bytes: Vec<u8>)
        requires
            old(self).wf(),
        ensures
            final(self).wf(),
            bytes@ == old(self)@.wire.outgoing,
            final(self)@ == old(self)@.on(
                Wire { pending: old(self)@.wire.pending, outgoing: Seq::<u8>::empty() },
            ),
    {
        self.operator.flush()
    }

    /// Takes one step of the session on an event, and says what is to be
    /// done next.
    pub fn run(&mut self, event: Event) -> (action: Action)
        requires
            old(self).wf(),
        ensures
            final(self).wf(),
            (final(self)@, action) == old(self)@.run(event),
    {
        match (self.state, event) {
            (State::Closed, _) => Action::Stop,
            (State::Error(_), _) => Action::Stop,
            (_, Event::Failed) => self.fail(Error::Connection),
            (State::AwaitReady, Event::Start) => {
                self.ready();
                self.state = State::Readying;
                Action::Flush
            },
            (State::Readying, Event::Flushed) => {
                self.state = State::Pinging;
                Action::Receive(1)
            },
            (State::Pinging, Event::Received(bytes)) => {
                self.operator.feed(bytes.as_slice());
                match self.ping_pon() {
                    Ok(_) => {
                        self.state = State::Ponging;
                        Action::Flush
                    },
                    Err(e) => self.fail(e),
                }
            },
            (State::Ponging, Event::Flushed) => {
                self.state = State::CommandLoop(Task::Idle);
                Action::Receive(1)
            },
            (State::CommandLoop(Task::Idle), Event::Received(bytes)) => {
                self.operator.feed(bytes.as_slice());
                self.serve()
            },
            (State::CommandLoop(Task::DownstreamDuration), Event::Received(bytes)) => {
                self.operator.feed(bytes.as_slice());
                self.handle_downstream()
            },
            (State::CommandLoop(Task::UpstreamDuration), Event::Received(bytes)) => {
                self.operator.feed(bytes.as_slice());
                self.handle_upstream()
            },
            (State::CommandLoop(Task::Busy(phase)), event) => self.transfer(phase, event),
            _ => self.fail(Error::OutOfTurn),
        }
    }

    /// Ends the session on an error.
    fn fail(&mut self, e: Error) -> (action: Action)
        requires
            old(self).wf(),
        ensures
            final(self).wf(),
            (final(self)@, action) == old(self)@.fail(e),
    {
        self.state = State::Error(e);
        Action::Stop
    }

    /// Writes `Ready`.
    fn ready(&mut self)
        requires
            old(self).wf(),
        ensures
            final(self).wf(),
            final(self)@ == old(self)@.on(old(self)@.wire.write(Command::Ready)),
    {
        self.operator.write(Command::Ready)
    }

    /// The worker's side of the ping exchange.
    fn ping_pon(&mut self) -> (r: Result<(), Error>)
        requires
            old(self).wf(),
        ensures
            final(self).wf(),
            final(self)@ == old(self)@.on(old(self)@.wire.ping_read_then_write().1),
            r == old(self)@.wire.ping_read_then_write().0,
    {
        self.operator.ping_read_then_write()
    }

    /// Reads the next command and turns to what it asks for.
    fn serve(&mut self) -> (action: Action)
        requires
            old(self).wf(),
        ensures
            final(self).wf(),
            (final(self)@, action) == old(self)@.serve(Seq::<u8>::empty()),
    {
        assert(self@.wire.feed(Seq::<u8>::empty()) =~= self@.wire) by {
            assert(self@.wire.pending + Seq::<u8>::empty() =~= self@.wire.pending);
        }
        match self.operator.read() {
            Err(Error::EndOfStream) => {
                self.state = State::Closed;
                Action::Stop
            },
            Ok(Command::Close) => {
                self.state = State::Closed;
                Action::Stop
            },
            Ok(Command::RequestDownstream) => {
                self.state = State::CommandLoop(Task::DownstreamDuration);
                Action::Receive(8)
            },
            Ok(Command::RequestUpstream) => {
                self.state = State::CommandLoop(Task::UpstreamDuration);
                Action::Receive(8)
            },
            Ok(cmd) => self.fail(Error::UnexpectedCommand(cmd)),
            Err(e) => self.fail(e),
        }
    }

    /// Reads the duration of a downstream test and begins to send.
    fn handle_downstream(&mut self) -> (action: Action)
        requires
            old(self).wf(),
        ensures
            final(self).wf(),
            (final(self)@, action) == old(self)@.begin(true, Seq::<u8>::empty()),
    {
        assert(self@.wire.feed(Seq::<u8>::empty()) =~= self@.wire) by {
            assert(self@.wire.pending + Seq::<u8>::empty() =~= self@.wire.pending);
        }
        match self.operator.read_duration() {
            Ok(timeout) => {
                self.state = State::CommandLoop(Task::Busy(Phase::sending(timeout)));
                Action::StartTimer
            },
            Err(e) => self.fail(e),
        }
    }

    /// Reads the duration of an upstream test, which the worker has no use
    /// for, and begins to receive.
    fn handle_upstream(&mut self) -> (action: Action)
        requires
            old(self).wf(),
        ensures
            final(self).wf(),
            (final(self)@, action) == old(self)@.begin(false, Seq::<u8>::empty()),
    {
        assert(self@.wire.feed(Seq::<u8>::empty()) =~= self@.wire) by {
            assert(self@.wire.pending + Seq::<u8>::empty() =~= self@.wire.pending);
        }
        match self.operator.read_duration() {
            Ok(_) => {
                self.state = State::CommandLoop(Task::Busy(Phase::receiving()));
                Action::Receive(1)
            },
            Err(e) => self.fail(e),
        }
    }

    /// Takes one step of the transfer that is under way.
    fn transfer(&mut self, phase: Phase, event: Event) -> (action: Action)
        requires
            old(self).wf(),
        ensures
            final(self).wf(),
            (final(self)@, action) == old(self)@.transfer(phase, event),
    {
        match phase.step(&mut self.operator, event, &mut self.buff) {
            Outcome::Continue(next, action) => {
                self.state = State::CommandLoop(Task::Busy(next));
                action
            },
            Outcome::Finished(total) => {
                match phase {
                    Phase::ReceiveCommand { .. } | Phase::ReceivePayload { .. } => {
                        self.read = total;
                    },
                    _ => {
                        self.written = total;
                    },
                }
                self.state = State::CommandLoop(Task::Idle);
                Action::Receive(1)
            },
            Outcome::Failed(e) => self.fail(e),
        }
    }
}

} // verus!
