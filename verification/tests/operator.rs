use netspeed::command::{add_chunk, chunk_size, Command, DeclineReason, Error, Operator, Transfer};
use netspeed::BUFFER_SIZE;

#[test]
fn a_new_operator_holds_nothing() {
    let mut operator = Operator::new();
    assert!(operator.flush().is_empty());
    assert_eq!(operator.read(), Err(Error::EndOfStream));
}

#[test]
fn write_appends_the_tag_and_flush_empties() {
    let mut operator = Operator::new();
    operator.write(Command::Ready);
    operator.write(Command::Close);
    assert_eq!(operator.flush(), vec![6, 100]);
    assert!(operator.flush().is_empty());
}

#[test]
fn read_takes_one_byte_at_a_time() {
    let mut operator = Operator::new();
    operator.feed(&[2, 5]);
    assert_eq!(operator.read(), Ok(Command::RequestDownstream));
    operator.feed(&[1]);
    assert_eq!(operator.read(), Ok(Command::Complete));
    assert_eq!(operator.read(), Ok(Command::Ping));
    assert_eq!(operator.read(), Err(Error::EndOfStream));
}

#[test]
fn end_of_stream_differs_from_a_malformed_tag() {
    let mut operator = Operator::new();
    assert_eq!(operator.read(), Err(Error::EndOfStream));
    operator.feed(&[99, 1]);
    assert_eq!(operator.read(), Err(Error::InvalidCommand(99)));
    assert_eq!(operator.read(), Ok(Command::Ping));
}

#[test]
fn duration_is_eight_big_endian_bytes() {
    let mut operator = Operator::new();
    operator.write_duration(1);
    assert_eq!(operator.flush(), vec![0, 0, 0, 0, 0, 0, 0, 1]);
    operator.write_duration(0x0102_0304_0506_0708);
    assert_eq!(operator.flush(), vec![1, 2, 3, 4, 5, 6, 7, 8]);
    operator.write_duration(u64::MAX);
    assert_eq!(operator.flush(), vec![255; 8]);
}

#[test]
fn duration_round_trips_exactly() {
    for secs in [0u64, 1, 3, 10, 255, 256, 1 << 32, (1 << 63) + 12345, u64::MAX] {
        let mut sender = Operator::new();
        sender.write_duration(secs);
        let bytes = sender.flush();
        assert_eq!(bytes.len(), 8);
        let mut receiver = Operator::new();
        receiver.feed(&bytes);
        assert_eq!(receiver.read_duration(), Ok(secs));
        assert_eq!(receiver.read(), Err(Error::EndOfStream));
    }
}

#[test]
fn read_duration_reads_the_first_eight_bytes() {
    let mut operator = Operator::new();
    operator.feed(&[0, 0, 0, 0, 0, 0, 1, 0, 5]);
    assert_eq!(operator.read_duration(), Ok(256));
    assert_eq!(operator.read(), Ok(Command::Complete));
}

#[test]
fn a_short_duration_is_truncated_and_takes_nothing() {
    let mut operator = Operator::new();
    assert_eq!(operator.read_duration(), Err(Error::Truncated));
    operator.feed(&[0, 0, 0, 0, 0, 0, 3]);
    assert_eq!(operator.read_duration(), Err(Error::Truncated));
    operator.feed(&[9]);
    assert_eq!(operator.read_duration(), Ok(0x0309));
}

#[test]
fn expect_accepts_only_the_command_that_is_due() {
    let mut operator = Operator::new();
    operator.feed(&[1, 6, 99]);
    assert_eq!(operator.expect(Command::Ping), Ok(()));
    assert_eq!(
        operator.expect(Command::Ping),
        Err(Error::UnexpectedCommand(Command::Ready))
    );
    assert_eq!(operator.expect(Command::Ping), Err(Error::InvalidCommand(99)));
    assert_eq!(operator.expect(Command::Ping), Err(Error::EndOfStream));
}

#[test]
fn ping_exchange_of_the_responder() {
    let mut operator = Operator::new();
    operator.feed(&[1]);
    assert_eq!(operator.ping_read_then_write(), Ok(()));
    assert_eq!(operator.flush(), vec![1]);
}

#[test]
fn a_failed_ping_writes_no_reply() {
    let mut operator = Operator::new();
    operator.feed(&[6]);
    assert_eq!(operator.ping_read_then_write(), Err(Error::PingFailure));
    assert!(operator.flush().is_empty());
    operator.feed(&[99]);
    assert_eq!(operator.read_ping(), Err(Error::PingFailure));
    assert_eq!(operator.read_ping(), Err(Error::PingFailure));
    assert!(operator.flush().is_empty());
}

#[test]
fn repeated_ping_rounds_leave_the_endpoint_ready() {
    let mut operator = Operator::new();
    for _ in 0..100 {
        operator.feed(&[1]);
        assert_eq!(operator.ping_read_then_write(), Ok(()));
        assert_eq!(operator.flush(), vec![1]);
        assert_eq!(operator.read(), Err(Error::EndOfStream));
    }
    operator.feed(&[2]);
    assert_eq!(operator.read(), Ok(Command::RequestDownstream));
}

#[test]
fn ping_of_the_initiator() {
    let mut operator = Operator::new();
    operator.write_ping();
    assert_eq!(operator.flush(), vec![1]);
    operator.feed(&[1]);
    assert_eq!(operator.read_ping(), Ok(()));
}

#[test]
fn requests_carry_their_duration() {
    let mut operator = Operator::new();
    operator.request_downstream(3);
    assert_eq!(operator.flush(), vec![2, 0, 0, 0, 0, 0, 0, 0, 3]);
    operator.request_upstream(10);
    assert_eq!(operator.flush(), vec![3, 0, 0, 0, 0, 0, 0, 0, 10]);
}

#[test]
fn decline_carries_its_reason() {
    let mut operator = Operator::new();
    operator.write_decline(DeclineReason::MaxThreadsExceed(100));
    assert_eq!(operator.flush(), vec![7, 0, 0, 0, 1, 0, 0, 0, 100]);
    operator.write_decline(DeclineReason::Unknown);
    assert_eq!(operator.flush(), vec![7, 0, 0, 0, 0, 0, 0, 0, 0]);
    operator.write_decline_reason(DeclineReason::MaxThreadsExceed(0x0102_0304));
    assert_eq!(operator.flush(), vec![0, 0, 0, 1, 1, 2, 3, 4]);
}

#[test]
fn decline_reason_is_read_from_the_wire() {
    let mut operator = Operator::new();
    operator.feed(&[7, 0, 0, 0, 1, 0, 0, 0, 1]);
    assert_eq!(operator.read(), Ok(Command::Decline));
    assert_eq!(
        operator.read_decline_reason(),
        Ok(DeclineReason::MaxThreadsExceed(1))
    );
    operator.feed(&[0, 0, 0, 9, 0, 0, 0, 1]);
    assert_eq!(operator.read_decline_reason(), Ok(DeclineReason::Unknown));
    operator.feed(&[0, 0, 0, 1]);
    assert_eq!(operator.read_decline_reason(), Err(Error::Truncated));
}

#[test]
fn a_chunk_is_the_tag_and_the_payload() {
    let mut operator = Operator::new();
    operator.send_buffer(&[9, 8, 7]);
    assert_eq!(operator.flush(), vec![4, 9, 8, 7]);
}

#[test]
fn receive_buffer_takes_exactly_the_payload() {
    let mut sender = Operator::new();
    let payload: Vec<u8> = (0..BUFFER_SIZE).map(|i| (i % 251) as u8).collect();
    sender.send_buffer(&payload);
    sender.write(Command::Complete);
    let bytes = sender.flush();
    assert_eq!(bytes.len(), BUFFER_SIZE + 2);

    let mut receiver = Operator::new();
    receiver.feed(&bytes);
    assert_eq!(receiver.read(), Ok(Command::SendBuffer));
    let mut buff = vec![0u8; BUFFER_SIZE];
    assert_eq!(receiver.receive_buffer(&mut buff), Ok(()));
    assert_eq!(buff, payload);
    assert_eq!(receiver.read(), Ok(Command::Complete));
}

#[test]
fn a_short_payload_is_truncated() {
    let mut operator = Operator::new();
    operator.feed(&[1, 2, 3]);
    let mut buff = vec![7u8; 4];
    assert_eq!(operator.receive_buffer(&mut buff), Err(Error::Truncated));
    assert_eq!(buff, vec![7u8; 4]);
    operator.feed(&[4, 5]);
    assert_eq!(operator.receive_buffer(&mut buff), Ok(()));
    assert_eq!(buff, vec![1, 2, 3, 4]);
    assert_eq!(operator.read(), Ok(Command::Complete));
}

#[test]
fn write_loop_sends_chunks_until_the_time_is_up() {
    let mut operator = Operator::new();
    assert_eq!(operator.write_loop(2, None, 0), Transfer::Chunk(1_048_576));
    let chunk = operator.flush();
    assert_eq!(chunk.len(), BUFFER_SIZE + 1);
    assert_eq!(chunk[0], 4);
    assert!(chunk[1..].iter().all(|b| *b == 0));
    assert_eq!(
        operator.write_loop(2, Some(0), 1_048_576),
        Transfer::Chunk(2_097_152)
    );
    operator.flush();
    assert_eq!(
        operator.write_loop(2, Some(1), 2_097_152),
        Transfer::Chunk(3_145_728)
    );
    operator.flush();
    assert_eq!(
        operator.write_loop(2, Some(2), 3_145_728),
        Transfer::Complete(3_145_728)
    );
    assert_eq!(operator.flush(), vec![5]);
    assert_eq!(
        operator.write_loop(2, Some(9), 3_145_728),
        Transfer::Complete(3_145_728)
    );
    assert_eq!(operator.flush(), vec![5]);
}

#[test]
fn write_loop_of_no_duration_sends_one_chunk() {
    let mut operator = Operator::new();
    assert_eq!(operator.write_loop(0, None, 0), Transfer::Chunk(1_048_576));
    assert_eq!(
        operator.write_loop(0, Some(0), 1_048_576),
        Transfer::Complete(1_048_576)
    );
    let bytes = operator.flush();
    assert_eq!(bytes.len(), BUFFER_SIZE + 2);
    assert_eq!(bytes[0], 4);
    assert!(bytes[1..=BUFFER_SIZE].iter().all(|b| *b == 0));
    assert_eq!(bytes[BUFFER_SIZE + 1], 5);
}

#[test]
fn ping_exchange_of_the_initiator_in_one_call() {
    let mut operator = Operator::new();
    operator.feed(&[1]);
    assert_eq!(operator.ping_write_then_read(), Ok(()));
    assert_eq!(operator.flush(), vec![1]);
    assert_eq!(operator.ping_write_then_read(), Err(Error::PingFailure));
    assert_eq!(operator.flush(), vec![1]);
    operator.feed(&[6]);
    assert_eq!(operator.ping_write_then_read(), Err(Error::PingFailure));
    assert_eq!(operator.flush(), vec![1]);
}

#[test]
fn read_loop_counts_chunks_until_complete() {
    let mut operator = Operator::new();
    operator.feed(&[4, 5, 1, 99]);
    assert_eq!(operator.read_loop(0), Ok(Transfer::Chunk(1_048_576)));
    assert_eq!(operator.read_loop(1_048_576), Ok(Transfer::Complete(1_048_576)));
    assert_eq!(
        operator.read_loop(0),
        Err(Error::UnexpectedCommand(Command::Ping))
    );
    assert_eq!(operator.read_loop(0), Err(Error::InvalidCommand(99)));
    assert_eq!(operator.read_loop(0), Err(Error::EndOfStream));
}

#[test]
fn byte_totals_saturate() {
    assert_eq!(chunk_size(), 1_048_576);
    assert_eq!(add_chunk(0), 1_048_576);
    assert_eq!(add_chunk(u64::MAX - 1_048_576), u64::MAX);
    assert_eq!(add_chunk(u64::MAX - 1_048_575), u64::MAX);
    assert_eq!(add_chunk(u64::MAX), u64::MAX);
}

#[test]
fn a_whole_receiving_loop_counts_whole_chunks() {
    for chunks in [0usize, 1, 3] {
        let mut stream = Vec::new();
        for n in 0..chunks {
            stream.push(4);
            stream.extend(vec![n as u8 + 1; BUFFER_SIZE]);
        }
        stream.push(5);
        stream.push(100);
        let mut operator = Operator::new();
        operator.feed(&stream);
        let mut buff = vec![0u8; BUFFER_SIZE];
        let mut read_bytes = 0u64;
        let total = loop {
            match operator.read_loop(read_bytes) {
                Ok(Transfer::Chunk(total)) => {
                    assert_eq!(operator.receive_buffer(&mut buff), Ok(()));
                    read_bytes = total;
                }
                Ok(Transfer::Complete(total)) => break total,
                Err(e) => panic!("the loop failed: {:?}", e),
            }
        };
        assert_eq!(total, chunks as u64 * 1_048_576);
        assert_eq!(operator.read(), Ok(Command::Close));
        assert_eq!(operator.read(), Err(Error::EndOfStream));
        assert!(operator.flush().is_empty());
    }
}

#[test]
fn a_whole_sending_loop_writes_whole_chunks_and_one_complete() {
    let readings = [0u64, 0, 1, 1, 2, 7];
    let mut operator = Operator::new();
    let mut turn = operator.write_loop(2, None, 0);
    let mut next = 0;
    let total = loop {
        match turn {
            Transfer::Chunk(total) => {
                turn = operator.write_loop(2, Some(readings[next]), total);
                next += 1;
            }
            Transfer::Complete(total) => break total,
        }
    };
    assert_eq!(next, 5);
    assert_eq!(total, 5 * 1_048_576);
    let bytes = operator.flush();
    assert_eq!(bytes.len(), 5 * (BUFFER_SIZE + 1) + 1);
    for n in 0..5 {
        let frame = &bytes[n * (BUFFER_SIZE + 1)..(n + 1) * (BUFFER_SIZE + 1)];
        assert_eq!(frame[0], 4);
        assert!(frame[1..].iter().all(|b| *b == 0));
    }
    assert_eq!(bytes[bytes.len() - 1], 5);
}
