use netspeed::client::{Client, State as ClientState};
use netspeed::command::{DeclineReason, Error, Operator};
use netspeed::server::{Dispatcher, State as WorkerState, Worker};
use netspeed::transfer::{Action, Event, Outcome, Phase};
use netspeed::BUFFER_SIZE;
use std::collections::VecDeque;

/// One end of an in-memory connection: the bytes on their way to it, and
/// a timer that advances by one second at each reading.
struct End {
    inbox: VecDeque<u8>,
    clock: u64,
    action: Action,
}

impl End {
    fn new(action: Action) -> End {
        End { inbox: VecDeque::new(), clock: 0, action }
    }

    fn take(&mut self, n: usize) -> Vec<u8> {
        let n = n.min(self.inbox.len());
        self.inbox.drain(..n).collect()
    }
}

/// Runs a worker and a client against each other until neither can go on.
fn run_session(worker: &mut Worker, client: &mut Client) {
    let mut server = End::new(worker.run(Event::Start));
    let mut peer = End::new(client.run(Event::Start));
    loop {
        let mut moved = false;
        match server.action {
            Action::Stop => {}
            Action::Flush => {
                peer.inbox.extend(worker.flush());
                server.action = worker.run(Event::Flushed);
                moved = true;
            }
            Action::Receive(n) => {
                if server.inbox.len() >= n || peer.action == Action::Stop {
                    let bytes = server.take(n);
                    server.action = worker.run(Event::Received(bytes));
                    moved = true;
                }
            }
            Action::StartTimer => {
                server.clock = 0;
                server.action = worker.run(Event::Elapsed(0));
                moved = true;
            }
            Action::ReadTimer => {
                server.clock += 1;
                server.action = worker.run(Event::Elapsed(server.clock));
                moved = true;
            }
        }
        match peer.action {
            Action::Stop => {}
            Action::Flush => {
                server.inbox.extend(client.flush());
                peer.action = client.run(Event::Flushed);
                moved = true;
            }
            Action::Receive(n) => {
                if peer.inbox.len() >= n || server.action == Action::Stop {
                    let bytes = peer.take(n);
                    peer.action = client.run(Event::Received(bytes));
                    moved = true;
                }
            }
            Action::StartTimer => {
                peer.clock = 0;
                peer.action = client.run(Event::Elapsed(0));
                moved = true;
            }
            Action::ReadTimer => {
                peer.clock += 1;
                peer.action = client.run(Event::Elapsed(peer.clock));
                moved = true;
            }
        }
        if !moved {
            break;
        }
    }
}

#[test]
fn a_one_second_test_moves_whole_chunks() {
    let mut worker = Worker::new(String::from("loopback"));
    let mut client = Client::new().duration(Some(1));
    run_session(&mut worker, &mut client);
    assert_eq!(client.state(), ClientState::Done);
    assert_eq!(worker.state(), WorkerState::Closed);
    let spec = client.result();
    assert!(spec.is_some());
    if let Some(spec) = spec {
        assert!(spec.downstream.bytes > 0);
        assert_eq!(spec.downstream.bytes % BUFFER_SIZE as u64, 0);
        assert_eq!(spec.downstream.duration, 1);
        assert!(spec.upstream.bytes > 0);
        assert_eq!(spec.upstream.bytes % BUFFER_SIZE as u64, 0);
        assert_eq!(spec.downstream.bytes, worker.written());
        assert_eq!(spec.upstream.bytes, worker.read());
        let bits = spec.downstream.bytes as f64 * 8.0;
        let throughput = bits / spec.downstream.duration as f64;
        assert!(throughput > 0.0);
        assert!(throughput.is_finite());
    }
}

#[test]
fn both_ends_count_the_same_bytes() {
    for secs in [0u64, 1, 2, 5] {
        let mut worker = Worker::new(String::from("loopback"));
        let mut client = Client::new().duration(Some(secs));
        run_session(&mut worker, &mut client);
        assert_eq!(client.state(), ClientState::Done);
        assert_eq!(worker.state(), WorkerState::Closed);
        if let Some(spec) = client.result() {
            let chunks = secs.max(1);
            assert_eq!(spec.downstream.bytes, chunks * BUFFER_SIZE as u64);
            assert_eq!(spec.upstream.bytes, chunks * BUFFER_SIZE as u64);
            assert_eq!(worker.written(), chunks * BUFFER_SIZE as u64);
            assert_eq!(worker.read(), chunks * BUFFER_SIZE as u64);
        }
    }
}

#[test]
fn the_second_client_of_a_full_server_is_declined() {
    let dispatcher = Dispatcher::new(1);
    let first = dispatcher.dispatch();
    assert!(first.is_ok());
    let mut busy = Worker::new(String::from("client a"));
    assert_eq!(busy.run(Event::Start), Action::Flush);

    let second = dispatcher.dispatch();
    assert_eq!(second.err(), Some(DeclineReason::MaxThreadsExceed(1)));
    let refusal = dispatcher.decline();
    assert_eq!(dispatcher.active_workers(), 1);

    let mut client = Client::new().duration(Some(3));
    assert_eq!(client.run(Event::Start), Action::Receive(1));
    assert_eq!(
        client.run(Event::Received(refusal[..1].to_vec())),
        Action::Receive(8)
    );
    assert_eq!(
        client.run(Event::Received(refusal[1..].to_vec())),
        Action::Stop
    );
    assert_eq!(
        client.state(),
        ClientState::Error(Error::Declined(DeclineReason::MaxThreadsExceed(1)))
    );
    assert_eq!(client.result(), None);

    if let Ok(slot) = first {
        dispatcher.release(slot);
    }
    assert_eq!(dispatcher.active_workers(), 0);
}

#[test]
fn sending_phase_steps() {
    let mut operator = Operator::new();
    let mut buff = vec![0u8; BUFFER_SIZE];
    let phase = Phase::sending(1);
    assert_eq!(phase, Phase::SendStart { timeout: 1 });
    let out = phase.step(&mut operator, Event::Elapsed(0), &mut buff);
    assert_eq!(
        out,
        Outcome::Continue(
            Phase::SendChunk { timeout: 1, written: 1_048_576 },
            Action::Flush
        )
    );
    assert_eq!(operator.flush().len(), BUFFER_SIZE + 1);
    let out = Phase::SendChunk { timeout: 1, written: 1_048_576 }.step(
        &mut operator,
        Event::Flushed,
        &mut buff,
    );
    assert_eq!(
        out,
        Outcome::Continue(
            Phase::SendClock { timeout: 1, written: 1_048_576 },
            Action::ReadTimer
        )
    );
    let out = Phase::SendClock { timeout: 1, written: 1_048_576 }.step(
        &mut operator,
        Event::Elapsed(1),
        &mut buff,
    );
    assert_eq!(
        out,
        Outcome::Continue(Phase::SendComplete { written: 1_048_576 }, Action::Flush)
    );
    assert_eq!(operator.flush(), vec![5]);
    let out = Phase::SendComplete { written: 1_048_576 }.step(
        &mut operator,
        Event::Flushed,
        &mut buff,
    );
    assert_eq!(out, Outcome::Finished(1_048_576));
}

#[test]
fn receiving_phase_steps() {
    let mut operator = Operator::new();
    let mut buff = vec![0u8; BUFFER_SIZE];
    let phase = Phase::receiving();
    assert_eq!(phase, Phase::ReceiveCommand { read: 0 });
    let out = phase.step(&mut operator, Event::Received(vec![4]), &mut buff);
    assert_eq!(
        out,
        Outcome::Continue(
            Phase::ReceivePayload { read: 1_048_576 },
            Action::Receive(BUFFER_SIZE)
        )
    );
    let out = Phase::ReceivePayload { read: 1_048_576 }.step(
        &mut operator,
        Event::Received(vec![3; BUFFER_SIZE]),
        &mut buff,
    );
    assert_eq!(
        out,
        Outcome::Continue(Phase::ReceiveCommand { read: 1_048_576 }, Action::Receive(1))
    );
    assert_eq!(buff, vec![3; BUFFER_SIZE]);
    let out = Phase::ReceiveCommand { read: 1_048_576 }.step(
        &mut operator,
        Event::Received(vec![5]),
        &mut buff,
    );
    assert_eq!(out, Outcome::Finished(1_048_576));
}

#[test]
fn phase_failures() {
    let mut operator = Operator::new();
    let mut buff = vec![0u8; BUFFER_SIZE];
    assert_eq!(
        Phase::receiving().step(&mut operator, Event::Failed, &mut buff),
        Outcome::Failed(Error::Connection)
    );
    assert_eq!(
        Phase::receiving().step(&mut operator, Event::Flushed, &mut buff),
        Outcome::Failed(Error::OutOfTurn)
    );
    assert_eq!(
        Phase::sending(1).step(&mut operator, Event::Received(vec![4]), &mut buff),
        Outcome::Failed(Error::OutOfTurn)
    );
    assert_eq!(
        Phase::receiving().step(&mut operator, Event::Received(vec![]), &mut buff),
        Outcome::Failed(Error::EndOfStream)
    );
    assert_eq!(
        Phase::receiving().step(&mut operator, Event::Received(vec![99]), &mut buff),
        Outcome::Failed(Error::InvalidCommand(99))
    );
    assert_eq!(
        Phase::ReceivePayload { read: 0 }.step(&mut operator, Event::Received(vec![1, 2]), &mut buff),
        Outcome::Failed(Error::Truncated)
    );
}
