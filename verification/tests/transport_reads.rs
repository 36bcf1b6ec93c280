use modbus_rtu::engine::Event;
use modbus_rtu::error::TransportError;
use modbus_rtu::transport::{after_wait, plan_wait, Expiry, OpenFailure, ReadStep, Wait, WaitPlan};

#[test]
fn open_failures_map_to_transport_errors() {
    assert_eq!(OpenFailure::NotFound.error(), TransportError::DeviceUnavailable);
    assert_eq!(OpenFailure::NoDevice.error(), TransportError::DeviceUnavailable);
    assert_eq!(OpenFailure::InvalidInput.error(), TransportError::InvalidConfig);
    assert_eq!(OpenFailure::Other.error(), TransportError::Io);
}

#[test]
fn bytes_are_gathered_in_order() {
    assert_eq!(after_wait(vec![], Wait::Bytes(vec![1, 3])), ReadStep::Continue(vec![1, 3]));
    assert_eq!(
        after_wait(vec![1, 3], Wait::Bytes(vec![4, 0, 10])),
        ReadStep::Continue(vec![1, 3, 4, 0, 10])
    );
    assert_eq!(after_wait(vec![1, 3], Wait::Bytes(vec![])), ReadStep::Continue(vec![1, 3]));
}

#[test]
fn silence_after_bytes_ends_the_read() {
    assert_eq!(
        after_wait(vec![1, 3, 4], Wait::Silence),
        ReadStep::Report(Event::Received(vec![1, 3, 4]))
    );
}

#[test]
fn silence_before_any_byte_is_waited_out() {
    assert_eq!(after_wait(vec![], Wait::Silence), ReadStep::Continue(vec![]));
}

#[test]
fn deadline_without_a_byte_is_a_timeout() {
    assert_eq!(
        after_wait(vec![], Wait::Deadline),
        ReadStep::Report(Event::ReadFailed(TransportError::Timeout))
    );
}

#[test]
fn deadline_with_a_partial_reply_hands_it_on() {
    assert_eq!(after_wait(vec![1], Wait::Deadline), ReadStep::Report(Event::Received(vec![1])));
    assert_eq!(
        after_wait(vec![1, 3, 4, 0], Wait::Deadline),
        ReadStep::Report(Event::Received(vec![1, 3, 4, 0]))
    );
}

#[test]
fn device_failure_ends_the_read() {
    assert_eq!(
        after_wait(vec![], Wait::Failed),
        ReadStep::Report(Event::ReadFailed(TransportError::Io))
    );
    assert_eq!(
        after_wait(vec![1, 3], Wait::Failed),
        ReadStep::Report(Event::ReadFailed(TransportError::Io))
    );
}

#[test]
fn a_reply_that_arrives_in_pieces_is_put_together() {
    let pieces: [&[u8]; 3] = [&[0x01, 0x03], &[0x04, 0x00, 0x0A, 0x00], &[0x14, 0xDA, 0x3E]];
    let mut gathered = Vec::new();
    for piece in pieces {
        match after_wait(gathered, Wait::Bytes(piece.to_vec())) {
            ReadStep::Continue(more) => gathered = more,
            other => panic!("unexpected {:?}", other),
        }
    }
    assert_eq!(
        after_wait(gathered, Wait::Silence),
        ReadStep::Report(Event::Received(vec![0x01, 0x03, 0x04, 0x00, 0x0A, 0x00, 0x14, 0xDA, 0x3E]))
    );
}

#[test]
fn the_gap_is_waited_while_it_ends_before_the_deadline() {
    assert_eq!(plan_wait(1_000_000, 3646), WaitPlan { micros: 3646, expiry: Expiry::Silence });
    assert_eq!(plan_wait(3647, 3646), WaitPlan { micros: 3646, expiry: Expiry::Silence });
}

#[test]
fn the_rest_is_waited_when_the_deadline_comes_first() {
    assert_eq!(plan_wait(3646, 3646), WaitPlan { micros: 3646, expiry: Expiry::Deadline });
    assert_eq!(plan_wait(100, 3646), WaitPlan { micros: 100, expiry: Expiry::Deadline });
    assert_eq!(plan_wait(0, 3646), WaitPlan { micros: 0, expiry: Expiry::Deadline });
    assert_eq!(plan_wait(0, 0), WaitPlan { micros: 0, expiry: Expiry::Deadline });
}

#[test]
fn an_expired_wait_is_a_silence_or_the_deadline() {
    assert_eq!(plan_wait(1_000_000, 3646).expired(), Wait::Silence);
    assert_eq!(plan_wait(100, 3646).expired(), Wait::Deadline);
}
