use nidhogg::backend::lola::{split_frame, LOLA_BUFFER_SIZE, ROBOCUP_SOCKET_PATH};
use nidhogg::backend::{ConnectAction, ConnectEvent, ConnectionState, RetryPolicy};
use nidhogg::Error;

/// Walks through the connection states as a backend does, against a transport whose attempts
/// end as `outcomes` says. Returns the final state, the number of attempts, and the intervals
/// that were waited for.
fn walk(policy: &RetryPolicy<u64>, outcomes: &[bool]) -> (ConnectionState, usize, Vec<u64>) {
    let mut attempts = 0;
    let mut sleeps = Vec::new();
    let (mut state, mut action) = ConnectionState::Disconnected.step(policy, ConnectEvent::Start);
    loop {
        match action {
            ConnectAction::Attempt => {}
            ConnectAction::SleepThenAttempt(interval) => sleeps.push(interval),
            _ => return (state, attempts, sleeps),
        }
        let event = if outcomes[attempts] {
            ConnectEvent::AttemptSucceeded
        } else {
            ConnectEvent::AttemptFailed
        };
        attempts += 1;
        (state, action) = state.step(policy, event);
    }
}

#[test]
fn retry_bound() {
    let policy = RetryPolicy {
        retry_count: 3,
        retry_interval: 10,
    };
    let (state, attempts, sleeps) = walk(&policy, &[false; 8]);
    assert_eq!(state, ConnectionState::Failed);
    assert_eq!(attempts, 4);
    assert_eq!(sleeps, vec![10, 10, 10]);
}

#[test]
fn no_retries_means_one_attempt_and_no_wait() {
    let policy = RetryPolicy {
        retry_count: 0,
        retry_interval: 10,
    };
    let (state, attempts, sleeps) = walk(&policy, &[false; 2]);
    assert_eq!(state, ConnectionState::Failed);
    assert_eq!(attempts, 1);
    assert!(sleeps.is_empty());
}

#[test]
fn first_success_ends_the_walk() {
    let policy = RetryPolicy {
        retry_count: 5,
        retry_interval: 250,
    };
    let (state, attempts, sleeps) = walk(&policy, &[false, false, true, false, false, false]);
    assert_eq!(state, ConnectionState::Connected);
    assert_eq!(attempts, 3);
    assert_eq!(sleeps, vec![250, 250]);

    let (state, attempts, sleeps) = walk(&policy, &[true]);
    assert_eq!(state, ConnectionState::Connected);
    assert_eq!(attempts, 1);
    assert!(sleeps.is_empty());
}

#[test]
fn success_at_the_last_retry_still_connects() {
    let policy = RetryPolicy {
        retry_count: 2,
        retry_interval: 1,
    };
    let (state, attempts, sleeps) = walk(&policy, &[false, false, true]);
    assert_eq!(state, ConnectionState::Connected);
    assert_eq!(attempts, 3);
    assert_eq!(sleeps, vec![1, 1]);
}

#[test]
fn each_step_is_the_one_of_the_table() {
    let policy = RetryPolicy {
        retry_count: 1,
        retry_interval: 7u8,
    };
    assert_eq!(
        ConnectionState::Disconnected.step(&policy, ConnectEvent::Start),
        (
            ConnectionState::Connecting { attempt: 0 },
            ConnectAction::Attempt
        )
    );
    assert_eq!(
        ConnectionState::Connecting { attempt: 0 }.step(&policy, ConnectEvent::AttemptFailed),
        (
            ConnectionState::Connecting { attempt: 1 },
            ConnectAction::SleepThenAttempt(7)
        )
    );
    assert_eq!(
        ConnectionState::Connecting { attempt: 1 }.step(&policy, ConnectEvent::AttemptFailed),
        (ConnectionState::Failed, ConnectAction::ReturnFailure)
    );
    assert_eq!(
        ConnectionState::Connecting { attempt: 1 }.step(&policy, ConnectEvent::AttemptSucceeded),
        (ConnectionState::Connected, ConnectAction::ReturnConnection)
    );
    assert_eq!(
        ConnectionState::Connecting { attempt: u32::MAX }
            .step(&policy, ConnectEvent::AttemptFailed),
        (ConnectionState::Failed, ConnectAction::ReturnFailure)
    );
}

#[test]
fn events_that_do_not_belong_change_nothing() {
    let policy = RetryPolicy {
        retry_count: 3,
        retry_interval: (),
    };
    for state in [
        ConnectionState::Disconnected,
        ConnectionState::Connected,
        ConnectionState::Failed,
    ] {
        for event in [ConnectEvent::AttemptSucceeded, ConnectEvent::AttemptFailed] {
            assert_eq!(state.step(&policy, event), (state, ConnectAction::Stay));
        }
    }
    for state in [
        ConnectionState::Connecting { attempt: 2 },
        ConnectionState::Connected,
        ConnectionState::Failed,
    ] {
        assert_eq!(
            state.step(&policy, ConnectEvent::Start),
            (state, ConnectAction::Stay)
        );
    }
}

#[test]
fn only_connected_and_failed_are_terminal() {
    assert!(ConnectionState::Connected.is_terminal());
    assert!(ConnectionState::Failed.is_terminal());
    assert!(!ConnectionState::Disconnected.is_terminal());
    assert!(!ConnectionState::Connecting { attempt: 0 }.is_terminal());
}

#[test]
fn frame_size_is_fixed() {
    assert_eq!(LOLA_BUFFER_SIZE, 896);
    assert_eq!(ROBOCUP_SOCKET_PATH, "/tmp/robocup");

    let zeros = vec![0u8; 896];
    let (frame, rest) = split_frame(&zeros).unwrap();
    assert_eq!(frame.len(), 896);
    assert!(rest.is_empty());

    let ones = vec![0xffu8; 896];
    let (frame, rest) = split_frame(&ones).unwrap();
    assert_eq!(frame.len(), 896);
    assert!(rest.is_empty());
}

#[test]
fn a_frame_is_taken_off_the_front() {
    let received: Vec<u8> = (0..1000u32).map(|i| (i % 251) as u8).collect();
    let (frame, rest) = split_frame(&received).unwrap();
    assert_eq!(frame, &received[..896]);
    assert_eq!(rest, &received[896..]);
    assert_eq!(rest.len(), 104);

    let two_frames = vec![7u8; 2 * 896];
    let (first, rest) = split_frame(&two_frames).unwrap();
    let (second, rest) = split_frame(rest).unwrap();
    assert_eq!(first.len(), 896);
    assert_eq!(second.len(), 896);
    assert!(rest.is_empty());
}

#[test]
fn a_short_read_is_a_truncated_frame() {
    assert_eq!(
        split_frame(&[0u8; 895]),
        Err(Error::FrameTruncated { received: 895 })
    );
    assert_eq!(
        split_frame(&[]),
        Err(Error::FrameTruncated { received: 0 })
    );
}

#[test]
fn errors_describe_themselves() {
    assert_eq!(
        Error::NoLoLAConnection("No such file or directory".to_string()).description(),
        "Could not connect to LoLA socket"
    );
    assert_eq!(
        Error::FrameTruncated { received: 12 }.description(),
        "Received fewer bytes than one state frame holds"
    );
    assert_eq!(
        Error::MsgPackDecodeError("invalid type".to_string()).description(),
        "Failed to decode MessagePack message"
    );
    assert_eq!(
        Error::MsgPackEncodeError("depth limit".to_string()).description(),
        "Failed to encode MessagePack message"
    );
    assert_eq!(
        Error::BackendConnectError("timeout".to_string()).description(),
        "Could not connect to the backend"
    );
    assert_eq!(
        Error::BackendRequestError("unknown object".to_string()).description(),
        "The backend refused a request"
    );
}

#[test]
fn only_a_missing_connection_is_worth_another_try() {
    assert!(Error::NoLoLAConnection(String::new()).is_recoverable());
    assert!(Error::BackendConnectError(String::new()).is_recoverable());
    assert!(!Error::FrameTruncated { received: 0 }.is_recoverable());
    assert!(!Error::MsgPackDecodeError(String::new()).is_recoverable());
    assert!(!Error::MsgPackEncodeError(String::new()).is_recoverable());
    assert!(!Error::BackendRequestError(String::new()).is_recoverable());
}
