//! The client side: the driver of one measurement, which takes the
//! server's answer, shakes hands, and runs a downstream and then an
//! upstream test.

use crate::command::{
    be_bytes, lemma_decline_wire_round_trip, Command, DeclineReason, Error, Operator, Wire,
};
use crate::transfer::{Action, Event, Outcome, Phase};
use crate::BUFFER_SIZE;
use vstd::prelude::*;

verus! {

/// Duration in seconds of a test whose duration is not given.
pub const DEFAULT_DURATION: u64 = 3;

/// The bytes that one test moved and the seconds it was asked to last.
#[derive(Clone, Copy, Debug, PartialEq, Eq, Structural)]
pub struct Throughput {
    pub bytes: u64,
    pub duration: u64,
}

/// What a measurement found, one record for each direction.
#[derive(Clone, Copy, Debug, PartialEq, Eq, Structural)]
pub struct NetworkSpec {
    pub downstream: Throughput,
    pub upstream: Throughput,
}

/// Where a client stands in the protocol.
#[derive(Clone, Copy, Debug, PartialEq, Eq, Structural)]
pub enum State {
    /// The connection is open and nothing has been read.
    Connected,
    /// The server's first command is being read.
    AwaitStatus,
    /// The server has declined, and its reason is being read.
    Declined,
    /// The client's `Ping` is being flushed.
    PingWrite,
    /// The server's `Ping` in reply is being read.
    PingRead,
    /// The request for the downstream test is being flushed.
    DownstreamRequest,
    /// The downstream test is under way.
    Downstream(Phase),
    /// The announcement of the upstream test is being flushed.
    UpstreamRequest,
    /// The upstream test is under way.
    Upstream(Phase),
    /// Both tests have finished.
    Done,
    /// The run has ended on an error.
    Error(Error),
}

/// A client as its contracts see it: its state, the bytes of its
/// endpoint, and what it has measured.
pub struct Run {
    pub state: State,
    pub wire: Wire,
    pub spec: NetworkSpec,
}

impl Run {
    /// The run in another state.
    pub open spec fn at(self, state: State) -> Run {
        Run { state, ..self }
    }

    /// The run with other bytes in its endpoint.
    pub open spec fn on(self, wire: Wire) -> Run {
        Run { wire, ..self }
    }

    /// The run ended on an error, which stops it.
    pub open spec fn fail(self, e: Error) -> (Run, Action) {
        (self.at(State::Error(e)), Action::Stop)
    }

    /// The run with both tests set to last `secs` seconds.
    pub open spec fn lasting(self, secs: u64) -> Run {
        Run {
            spec: NetworkSpec {
                downstream: Throughput { bytes: self.spec.downstream.bytes, duration: secs },
                upstream: Throughput { bytes: self.spec.upstream.bytes, duration: secs },
            },
            ..self
        }
    }

    /// The run with the bytes of the downstream test noted.
    pub open spec fn note_downstream(self, bytes: u64) -> Run {
        Run {
            spec: NetworkSpec {
                downstream: Throughput { bytes, duration: self.spec.downstream.duration },
                upstream: self.spec.upstream,
            },
            ..self
        }
    }

    /// The run with the bytes of the upstream test noted.
    pub open spec fn note_upstream(self, bytes: u64) -> Run {
        Run {
            spec: NetworkSpec {
                downstream: self.spec.downstream,
                upstream: Throughput { bytes, duration: self.spec.upstream.duration },
            },
            ..self
        }
    }

    /// The step on the server's first command: `Ready` lets the client
    /// go on to its `Ping`; `Decline` is followed by its reason; anything
    /// else ends the run.
    pub open spec fn check_server_status(self, bytes: Seq<u8>) -> (Run, Action) {
        let (r, wire) = self.wire.feed(bytes).read();
        let s = self.on(wire);
        match r {
            Ok(Command::Ready) => (
                s.on(wire.write(Command::Ping)).at(State::PingWrite),
                Action::Flush,
            ),
            Ok(Command::Decline) => (s.at(State::Declined), Action::Receive(8)),
            Ok(cmd) => s.fail(Error::UnexpectedCommand(cmd)),
            Err(e) => s.fail(e),
        }
    }

    /// The step on the reason of a refusal, which ends the run with that
    /// reason.
    pub open spec fn declined(self, bytes: Seq<u8>) -> (Run, Action) {
        let (r, wire) = self.wire.feed(bytes).read_decline_reason();
        match r {
            Ok(reason) => self.on(wire).fail(Error::Declined(reason)),
            Err(e) => self.on(wire).fail(e),
        }
    }

    /// The step on the server's reply to the client's `Ping`: after it
    /// the downstream test is requested.
    pub open spec fn ping_pon(self, bytes: Seq<u8>) -> (Run, Action) {
        let (r, wire) = self.wire.feed(bytes).read_ping();
        match r {
            Ok(_) => (
                self.on(
                    wire.request(Command::RequestDownstream, self.spec.downstream.duration),
                ).at(State::DownstreamRequest),
                Action::Flush,
            ),
            Err(e) => self.on(wire).fail(e),
        }
    }

    /// The step of the downstream test: the client receives until the
    /// server completes, notes the bytes, and announces the upstream test.
    pub open spec fn downstream(self, phase: Phase, event: Event) -> (Run, Action) {
        let (out, wire) = phase.spec_step(self.wire, event);
        let s = self.on(wire);
        match out {
            Outcome::Continue(next, action) => (s.at(State::Downstream(next)), action),
            Outcome::Finished(total) => (
                s.note_downstream(total).on(
                    wire.request(Command::RequestUpstream, self.spec.upstream.duration),
                ).at(State::UpstreamRequest),
                Action::Flush,
            ),
            Outcome::Failed(e) => s.fail(e),
        }
    }

    /// The step of the upstream test: the client sends until the time is
    /// up, completes, notes the bytes, and is done.
    pub open spec fn upstream(self, phase: Phase, event: Event) -> (Run, Action) {
        let (out, wire) = phase.spec_step(self.wire, event);
        let s = self.on(wire);
        match out {
            Outcome::Continue(next, action) => (s.at(State::Upstream(next)), action),
            Outcome::Finished(total) => (s.note_upstream(total).at(State::Done), Action::Stop),
            Outcome::Failed(e) => s.fail(e),
        }
    }

    /// One step of a client.
    ///
    /// A run that has ended stays as it is. A failed connection ends it.
    /// The client reads the server's answer, sends `Ping` and reads the
    /// reply, runs the downstream test and then the upstream test. An
    /// event that does not answer the action that was asked for ends the
    /// run as out of turn.
    pub open spec fn run(self, event: Event) -> (Run, Action) {
        match (self.state, event) {
            (State::Done, _) => (self, Action::Stop),
            (State::Error(_), _) => (self, Action::Stop),
            (_, Event::Failed) => self.fail(Error::Connection),
            (State::Connected, Event::Start) => (self.at(State::AwaitStatus), Action::Receive(1)),
            (State::AwaitStatus, Event::Received(bytes)) => self.check_server_status(bytes@),
            (State::Declined, Event::Received(bytes)) => self.declined(bytes@),
            (State::PingWrite, Event::Flushed) => (self.at(State::PingRead), Action::Receive(1)),
            (State::PingRead, Event::Received(bytes)) => self.ping_pon(bytes@),
            (State::DownstreamRequest, Event::Flushed) => (
                self.at(State::Downstream(Phase::spec_receiving())),
                Action::Receive(1),
            ),
            (State::Downstream(phase), event) => self.downstream(phase, event),
            (State::UpstreamRequest, Event::Flushed) => (
                self.at(State::Upstream(Phase::spec_sending(self.spec.upstream.duration))),
                Action::StartTimer,
            ),
            (State::Upstream(phase), event) => self.upstream(phase, event),
            _ => self.fail(Error::OutOfTurn),
        }
    }
}

/// A run that has ended takes no further step.
pub proof fn lemma_ended_run_stays(s: Run, event: Event)
    requires
        s.state == State::Done || s.state is Error,
    ensures
        s.run(event) == (s, Action::Stop),
{
}

/// A client that is declined ends its run with the reason that the
/// server wrote, and sends nothing.
pub proof fn lemma_declined(s: Run, tag: Vec<u8>, detail: Vec<u8>, reason: DeclineReason)
    requires
        s.state == State::AwaitStatus,
        s.wire.pending == Seq::<u8>::empty(),
        tag@ == seq![Command::Decline.spec_code()],
        detail@ == be_bytes(reason.spec_encode() as nat, 8),
    ensures
        ({
            let (s1, a1) = s.run(Event::Received(tag));
            let (s2, a2) = s1.run(Event::Received(detail));
            &&& a1 == Action::Receive(8) && s1.state == State::Declined
            &&& a2 == Action::Stop && s2.state == State::Error(Error::Declined(reason))
            &&& s2.wire.outgoing == s.wire.outgoing
        }),
{
    let fed = s.wire.feed(tag@);
    assert(fed.pending =~= tag@);
    assert(fed.pending.skip(1) =~= Seq::<u8>::empty());
    let (s1, a1) = s.run(Event::Received(tag));
    assert(s1.wire.pending =~= Seq::<u8>::empty());
    let fed1 = s1.wire.feed(detail@);
    assert(fed1.pending =~= be_bytes(reason.spec_encode() as nat, 8) + Seq::<u8>::empty());
    lemma_decline_wire_round_trip(reason, Seq::<u8>::empty(), s1.wire.outgoing);
}

/// The driver of one measurement. It owns the endpoint of the connection
/// and takes one step for each event that the owner of the connection
/// reports.
pub struct Client {
    operator: Operator,
    buff: Vec<u8>,
    state: State,
    spec: NetworkSpec,
}

impl View for Client {
    type V = Run;

    closed spec fn view(&self) -> Run {
        Run { state: self.state, wire: self.operator@, spec: self.spec }
    }
}

impl Client {
    /// The endpoint is well formed and the payload buffer holds one chunk.
    pub closed spec fn wf(&self) -> bool {
        &&& self.operator.wf()
        &&& self.buff@.len() == BUFFER_SIZE
    }

    /// A client on a connection that has just been opened, with nothing
    /// measured and no duration set.
    pub fn new() -> (client: Client)
        ensures
            client.wf(),
            client@ == (Run {
                state: State::Connected,
                wire: Wire::idle(),
                spec: NetworkSpec {
                    downstream: Throughput { bytes: 0, duration: 0 },
                    upstream: Throughput { bytes: 0, duration: 0 },
                },
            }),
    {
        Client {
            operator: Operator::new(),
            buff: vec![0u8; BUFFER_SIZE],
            state: State::Connected,
            spec: NetworkSpec {
                downstream: Throughput { bytes: 0, duration: 0 },
                upstream: Throughput { bytes: 0, duration: 0 },
            },
        }
    }

    /// Sets the duration in seconds of both tests; with none given they
    /// last `DEFAULT_DURATION` seconds.
    pub fn duration(self, duration: Option<u64>) -> (client: Client)
        requires
            self.wf(),
        ensures
            client.wf(),
            client@ == self@.lasting(
                match duration {
                    Some(secs) => secs,
                    None => DEFAULT_DURATION,
                },
            ),
    {
        let secs: u64 = match duration {
            Some(secs) => secs,
            None => DEFAULT_DURATION,
        };
        let mut client = self;
        client.spec.downstream.duration = secs;
        client.spec.upstream.duration = secs;
        client
    }

    /// The state of the client.
    pub fn state(&self) -> (state: State)
        ensures
            state == self@.state,
    {
        self.state
    }

    /// What the run has measured: both records once both tests have
    /// finished, and nothing before that or after a failure.
    pub fn result(&self) -> (spec: Option<NetworkSpec>)
        ensures
            spec == if self@.state == State::Done {
                Some(self@.spec)
            } else {
                None
            },
    {
        match self.state {
            State::Done => Some(self.spec),
            _ => None,
        }
    }

    /// Takes what the client has written since the last flush.
    pub fn flush(&mut self) -> (bytes: Vec<u8>)
        requires
            old(self).wf(),
        ensures
            final(self).wf(),
            bytes@ == old(self)@.wire.outgoing,
            final(self)@ == old(self)@.on(
                Wire { pending: old(self)@.wire.pending, outgoing: Seq::<u8>::empty() },
            ),
    {
        self.operator.flush()
    }

    /// Takes one step of the run on an event, and says what is to be done
    /// next.
    pub fn run(&mut self, event: Event) -> (action: Action)
        requires
            old(self).wf(),
        ensures
            final(self).wf(),
            (final(self)@, action) == old(self)@.run(event),
    {
        match (self.state, event) {
            (State::Done, _) => Action::Stop,
            (State::Error(_), _) => Action::Stop,
            (_, Event::Failed) => self.fail(Error::Connection),
            (State::Connected, Event::Start) => {
                self.state = State::AwaitStatus;
                Action::Receive(1)
            },
            (State::AwaitStatus, Event::Received(bytes)) => {
                self.operator.feed(bytes.as_slice());
                self.check_server_status()
            },
            (State::Declined, Event::Received(bytes)) => {
                self.operator.feed(bytes.as_slice());
                self.declined()
            },
            (State::PingWrite, Event::Flushed) => {
                self.state = State::PingRead;
                Action::Receive(1)
            },
            (State::PingRead, Event::Received(bytes)) => {
                self.operator.feed(bytes.as_slice());
                self.ping_pon()
            },
            (State::DownstreamRequest, Event::Flushed) => {
                self.state = State::Downstream(Phase::receiving());
                Action::Receive(1)
            },
            (State::Downstream(phase), event) => self.downstream(phase, event),
            (State::UpstreamRequest, Event::Flushed) => {
                self.state = State::Upstream(Phase::sending(self.spec.upstream.duration));
                Action::StartTimer
            },
            (State::Upstream(phase), event) => self.upstream(phase, event),
            _ => self.fail(Error::OutOfTurn),
        }
    }

    /// Ends the run on an error.
    fn fail(&mut self, e: Error) -> (action: Action)
        requires
            old(self).wf(),
        ensures
            final(self).wf(),
            (final(self)@, action) == old(self)@.fail(e),
    {
        self.state = State::Error(e);
        Action::Stop
    }

    /// Reads the server's first command and acts on it.
    fn check_server_status(&mut self) -> (action: Action)
        requires
            old(self).wf(),
        ensures
            final(self).wf(),
            (final(self)@, action) == old(self)@.check_server_status(Seq::<u8>::empty()),
    {
        assert(self@.wire.feed(Seq::<u8>::empty()) =~= self@.wire) by {
            assert(self@.wire.pending + Seq::<u8>::empty() =~= self@.wire.pending);
        }
        match self.operator.read() {
            Ok(Command::Ready) => {
                self.operator.write_ping();
                self.state = State::PingWrite;
                Action::Flush
            },
            Ok(Command::Decline) => {
                self.state = State::Declined;
                Action::Receive(8)
            },
            Ok(cmd) => self.fail(Error::UnexpectedCommand(cmd)),
            Err(e) => self.fail(e),
        }
    }

    /// Reads the reason of a refusal and ends the run with it.
    fn declined(&mut self) -> (action: Action)
        requires
            old(self).wf(),
        ensures
            final(self).wf(),
            (final(self)@, action) == old(self)@.declined(Seq::<u8>::empty()),
    {
        assert(self@.wire.feed(Seq::<u8>::empty()) =~= self@.wire) by {
            assert(self@.wire.pending + Seq::<u8>::empty() =~= self@.wire.pending);
        }
        match self.operator.read_decline_reason() {
            Ok(reason) => self.fail(Error::Declined(reason)),
            Err(e) => self.fail(e),
        }
    }

    /// Reads the server's `Ping` and requests the downstream test.
    fn ping_pon(&mut self) -> (action: Action)
        requires
            old(self).wf(),
        ensures
            final(self).wf(),
            (final(self)@, action) == old(self)@.ping_pon(Seq::<u8>::empty()),
    {
        assert(self@.wire.feed(Seq::<u8>::empty()) =~= self@.wire) by {
            assert(self@.wire.pending + Seq::<u8>::empty() =~= self@.wire.pending);
        }
        match self.operator.read_ping() {
            Ok(_) => {
                self.operator.request_downstream(self.spec.downstream.duration);
                self.state = State::DownstreamRequest;
                Action::Flush
            },
            Err(e) => self.fail(e),
        }
    }

    /// Takes one step of the downstream test.
    fn downstream(&mut self, phase: Phase, event: Event) -> (action: Action)
        requires
            old(self).wf(),
        ensures
            final(self).wf(),
            (final(self)@, action) == old(self)@.downstream(phase, event),
    {
        match phase.step(&mut self.operator, event, &mut self.buff) {
            Outcome::Continue(next, action) => {
                self.state = State::Downstream(next);
                action
            },
            Outcome::Finished(total) => {
                self.spec.downstream.bytes = total;
                self.operator.request_upstream(self.spec.upstream.duration);
                self.state = State::UpstreamRequest;
                Action::Flush
            },
            Outcome::Failed(e) => self.fail(e),
        }
    }

    /// Takes one step of the upstream test.
    fn upstream(&mut self, phase: Phase, event: Event) -> (action: Action)
        requires
            old(self).wf(),
        ensures
            final(self).wf(),
            (final(self)@, action) == old(self)@.upstream(phase, event),
    {
        match phase.step(&mut self.operator, event, &mut self.buff) {
            Outcome::Continue(next, action) => {
                self.state = State::Upstream(next);
                action
            },
            Outcome::Finished(total) => {
                self.spec.upstream.bytes = total;
                self.state = State::Done;
                Action::Stop
            },
            Outcome::Failed(e) => self.fail(e),
        }
    }
}

} // verus!
