//! Exact-value checks: wire numberings, option application, error kinds
//! and messages, release-exactly-once, the stats cell, the byte-stream
//! adapter, and the bridge decision steps.

use rist::logging::{
    RAW_LOG_DEBUG, RAW_LOG_DISABLE, RAW_LOG_ERROR, RAW_LOG_INFO, RAW_LOG_NOTICE, RAW_LOG_SIMULATE,
    RAW_LOG_WARN,
};
use rist::native::contains_nul;
use rist::offload::{ConnectAction, ConnectJoin, SendJoin};
use rist::readiness::{drain_step, DrainStep, STATS_INTERVAL_MS};
use rist::stream::PollRead;
use rist::{
    set_logging, AsyncReceiver, AsyncSender, Connect, CreateOutcome, DataBlock, Error, LogLevel,
    ParseOutcome, PeerConfig, Profile, ReadOutcome, Receiver, ReceiverOptions, ReceiverStats,
    RecoveryMode, Sender, SenderOptions, SenderStats, StatsEvent, StreamBuf,
};

fn ok_create() -> CreateOutcome {
    CreateOutcome { code: 0, handle: 5 }
}

fn parsed_config() -> PeerConfig {
    PeerConfig {
        recovery_mode: 2,
        recovery_maxbitrate: 100_000_000,
        recovery_length_min: 1000,
        recovery_length_max: 1000,
        recovery_reorder_buffer: 25,
        recovery_rtt_min: 50,
        recovery_rtt_max: 500,
    }
}

fn ok_parse() -> ParseOutcome {
    ParseOutcome { code: 0, config: Some(parsed_config()) }
}

fn started_receiver() -> Receiver {
    let mut rx = Receiver::new(Profile::Main, ok_create()).unwrap();
    rx.add_peer("rist://@:16100", ok_parse(), 0).unwrap();
    rx.start(0).unwrap();
    rx
}

fn started_sender() -> Sender {
    let mut tx = Sender::new(Profile::Main, ok_create()).unwrap();
    tx.add_peer("rist://127.0.0.1:16100", ok_parse(), 0).unwrap();
    tx.start(0).unwrap();
    tx
}

#[test]
fn profile_wire_values() {
    assert_eq!(Profile::Simple.to_raw(), 0);
    assert_eq!(Profile::Main.to_raw(), 1);
    assert_eq!(Profile::Advanced.to_raw(), 2);
    assert_eq!(Profile::default(), Profile::Main);
}

#[test]
fn log_level_wire_values() {
    assert_eq!(LogLevel::Disable.to_raw(), RAW_LOG_DISABLE);
    assert_eq!(LogLevel::Error.to_raw(), RAW_LOG_ERROR);
    assert_eq!(LogLevel::Warn.to_raw(), RAW_LOG_WARN);
    assert_eq!(LogLevel::Notice.to_raw(), RAW_LOG_NOTICE);
    assert_eq!(LogLevel::Info.to_raw(), RAW_LOG_INFO);
    assert_eq!(LogLevel::Debug.to_raw(), RAW_LOG_DEBUG);
    assert_eq!(LogLevel::Simulate.to_raw(), RAW_LOG_SIMULATE);
    assert_eq!(LogLevel::default(), LogLevel::Warn);
    assert!(set_logging(LogLevel::Info).is_ok());
}

#[test]
fn recovery_mode_wire_values() {
    assert_eq!(RecoveryMode::Disabled.to_raw(), 1);
    assert_eq!(RecoveryMode::Time.to_raw(), 2);
    assert_eq!(RecoveryMode::default(), RecoveryMode::Time);
}

#[test]
fn receiver_options_apply_only_set_fields() {
    let options = ReceiverOptions::new()
        .recovery_mode(RecoveryMode::Disabled)
        .recovery_maxbitrate(5_000_000)
        .recovery_length_min(250);
    let mut config = parsed_config();
    options.apply_to_peer_config(&mut config);
    assert_eq!(config.recovery_mode, 1);
    assert_eq!(config.recovery_maxbitrate, 5_000_000);
    assert_eq!(config.recovery_length_min, 250);
    // Unset fields keep what the parser chose.
    assert_eq!(config.recovery_length_max, 1000);
    assert_eq!(config.recovery_reorder_buffer, 25);
    assert_eq!(config.recovery_rtt_min, 50);
    assert_eq!(config.recovery_rtt_max, 500);
}

#[test]
fn sender_options_apply_only_set_fields() {
    let options = SenderOptions::new().recovery_length_max(2000);
    let mut config = parsed_config();
    options.apply_to_peer_config(&mut config);
    assert_eq!(config.recovery_length_max, 2000);
    assert_eq!(config.recovery_mode, 2);
    assert_eq!(config.recovery_maxbitrate, 100_000_000);
    assert_eq!(config.recovery_length_min, 1000);
}

#[test]
fn option_durations_truncate_to_native_width() {
    // The native field is 32 bits wide; a wider millisecond value is
    // truncated exactly as the conversion to the native unit does it.
    let options = ReceiverOptions::new().recovery_length_min((1u64 << 32) + 7);
    let mut config = parsed_config();
    options.apply_to_peer_config(&mut config);
    assert_eq!(config.recovery_length_min, 7);
}

#[test]
fn error_kinds_and_messages() {
    assert_eq!(Error::ContextCreation.message(), "failed to create context");
    assert_eq!(
        Error::UrlParse(String::from("rist://@:1")).message(),
        "failed to parse URL: rist://@:1"
    );
    assert_eq!(
        Error::PeerCreation(String::from("x")).message(),
        "failed to create peer: x"
    );
    assert_eq!(Error::Start.message(), "failed to start context");
    assert_eq!(Error::Send.message(), "failed to send data");
    assert_eq!(Error::Read.message(), "failed to read data");
    assert_eq!(
        Error::NulError(String::from("a\0b")).message(),
        "invalid string: contains null byte: a\0b"
    );
    assert_eq!(Error::AlreadyStarted.message(), "context already started");
    assert_eq!(Error::NotStarted.message(), "context not started");
    assert_eq!(Error::TimeoutOverflow.message(), "timeout value too large");
    assert_eq!(Error::LoggingSetup.message(), "logging setup failed");
    assert_eq!(
        Error::JoinError(String::from("cancelled")).message(),
        "async task join error: cancelled"
    );
}

#[test]
fn context_creation_failure_kinds() {
    // A non-zero code and a null handle are each a creation failure.
    assert!(matches!(
        Receiver::new(Profile::Main, CreateOutcome { code: -1, handle: 5 }),
        Err(Error::ContextCreation)
    ));
    assert!(matches!(
        Sender::new(Profile::Main, CreateOutcome { code: 0, handle: 0 }),
        Err(Error::ContextCreation)
    ));
}

#[test]
fn data_operation_before_start_is_not_started() {
    let rx = Receiver::new(Profile::Main, ok_create()).unwrap();
    assert!(matches!(
        rx.read(100, ReadOutcome { code: 0, block: None }),
        Err(Error::NotStarted)
    ));
    let tx = Sender::new(Profile::Main, ok_create()).unwrap();
    assert!(matches!(tx.send(b"x", 1), Err(Error::NotStarted)));
    assert!(matches!(tx.send_with_flow_id(b"x", 9, 1), Err(Error::NotStarted)));
}

#[test]
fn second_start_is_already_started() {
    let mut rx = started_receiver();
    assert!(matches!(rx.start(0), Err(Error::AlreadyStarted)));
    let mut tx = started_sender();
    assert!(matches!(tx.start(0), Err(Error::AlreadyStarted)));
}

#[test]
fn start_failure_keeps_session_stopped() {
    let mut rx = Receiver::new(Profile::Main, ok_create()).unwrap();
    assert!(matches!(rx.start(-1), Err(Error::Start)));
    assert!(!rx.started());
    assert!(rx.start(0).is_ok());
    assert!(rx.started());
}

#[test]
fn nul_address_is_rejected_before_parsing() {
    assert!(contains_nul("rist://@\0:1"));
    assert!(!contains_nul("rist://@:1"));
    let mut rx = Receiver::new(Profile::Main, ok_create()).unwrap();
    // The outcomes describe calls that are never made; the rejection
    // must not depend on them.
    let result = rx.add_peer("rist://@\0:1", ok_parse(), 0);
    match result {
        Err(Error::NulError(url)) => assert_eq!(url, "rist://@\0:1"),
        other => panic!("expected the invalid-string kind, got {:?}", other),
    }
}

#[test]
fn add_peer_failure_kinds_carry_the_address() {
    let mut rx = Receiver::new(Profile::Main, ok_create()).unwrap();
    match rx.add_peer("rist://@:1", ParseOutcome { code: -1, config: None }, 0) {
        Err(Error::UrlParse(url)) => assert_eq!(url, "rist://@:1"),
        other => panic!("expected the parse kind, got {:?}", other),
    }
    match rx.add_peer("rist://@:1", ok_parse(), -1) {
        Err(Error::PeerCreation(url)) => assert_eq!(url, "rist://@:1"),
        other => panic!("expected the peer kind, got {:?}", other),
    }
}

#[test]
fn oversized_timeout_is_overflow_not_truncation() {
    let rx = started_receiver();
    let too_large = (i32::MAX as u64) + 1;
    assert!(matches!(rx.read_request(too_large), Err(Error::TimeoutOverflow)));
    assert!(matches!(
        rx.read(too_large, ReadOutcome { code: 0, block: None }),
        Err(Error::TimeoutOverflow)
    ));
    assert_eq!(rx.read_request(i32::MAX as u64).unwrap(), i32::MAX);
    assert_eq!(rx.read_request(100).unwrap(), 100);
}

#[test]
fn recv_timeout_overflow_matches_blocking_read() {
    let receiver =
        AsyncReceiver::bind(Profile::Main, "rist://@:15100", ok_create(), ok_parse(), 0, 0)
            .unwrap();
    let too_large = (i32::MAX as u64) + 1;
    assert!(matches!(
        receiver.recv_timeout(too_large, false, None),
        Err(Error::TimeoutOverflow)
    ));
    // A deadline that elapses first is "no data", not an error.
    assert!(receiver.recv_timeout(100, true, None).unwrap().is_none());
}

#[test]
fn read_failure_and_send_failure_kinds() {
    let rx = started_receiver();
    assert!(matches!(
        rx.read(100, ReadOutcome { code: -1, block: None }),
        Err(Error::Read)
    ));
    let tx = started_sender();
    assert!(matches!(tx.send(b"abc", -1), Err(Error::Send)));
}

#[test]
fn send_returns_accepted_byte_count() {
    let tx = started_sender();
    // A short write is visible to the caller as a smaller count.
    assert_eq!(tx.send(b"abcd", 4).unwrap(), 4);
    assert_eq!(tx.send(b"abcd", 2).unwrap(), 2);
    assert_eq!(tx.send_with_flow_id(b"abcd", 7, 4).unwrap(), 4);
}

#[test]
fn context_release_exactly_once() {
    let mut rx = started_receiver();
    assert_eq!(rx.release(), Some(5));
    assert_eq!(rx.release(), None);
    let mut tx = started_sender();
    assert_eq!(tx.release(), Some(5));
    assert_eq!(tx.release(), None);
}

#[test]
fn data_block_release_exactly_once() {
    let mut block = DataBlock::from_raw(vec![1, 2, 3], 90_000, 42);
    assert_eq!(block.payload(), &[1, 2, 3]);
    assert_eq!(block.timestamp(), 90_000);
    assert_eq!(block.flow_id(), 42);
    assert!(block.release());
    assert!(!block.release());
    assert!(!block.release());
}

#[test]
fn stats_cell_snapshot_is_whole_and_last_wins() {
    let mut receiver =
        AsyncReceiver::bind(Profile::Main, "rist://@:15101", ok_create(), ok_parse(), 0, 0)
            .unwrap();
    assert!(receiver.raw_stats().is_none());

    let first = ReceiverStats {
        peer_count: 1,
        flow_id: 10,
        bandwidth: 1000,
        retry_bandwidth: 10,
        sent: 5,
        received: 100,
        missing: 2,
        reordered: 1,
        recovered: 2,
        lost: 0,
        quality: 100,
        rtt: 12,
    };
    let second = ReceiverStats { received: 200, quality: 99, ..first };

    // A sender-shaped payload is not stored on a receiver session.
    let foreign = SenderStats {
        peer_id: 3,
        bandwidth: 1,
        retry_bandwidth: 1,
        sent: 1,
        received: 1,
        retransmitted: 1,
        quality: 1,
        rtt: 1,
    };
    assert!(!receiver.store_stats(StatsEvent::SenderPeer(foreign)));
    assert!(receiver.raw_stats().is_none());

    assert!(receiver.store_stats(StatsEvent::ReceiverFlow(first)));
    assert_eq!(receiver.raw_stats(), Some(first));

    // Each snapshot supersedes the previous one wholesale: the reader
    // sees the fields of exactly one invocation, never a mixture.
    assert!(receiver.store_stats(StatsEvent::ReceiverFlow(second)));
    assert_eq!(receiver.raw_stats(), Some(second));
}

#[test]
fn sender_stats_cell_mirrors_receiver_cell() {
    let mut sender = AsyncSender::connect_blocking(
        Profile::Main,
        "rist://127.0.0.1:15102",
        &SenderOptions::new(),
        ok_create(),
        ok_parse(),
        0,
        0,
    )
    .unwrap();
    assert!(sender.raw_stats().is_none());
    let snapshot = SenderStats {
        peer_id: 3,
        bandwidth: 5000,
        retry_bandwidth: 100,
        sent: 50,
        received: 50,
        retransmitted: 2,
        quality: 98,
        rtt: 20,
    };
    assert!(sender.store_stats(StatsEvent::SenderPeer(snapshot)));
    assert_eq!(sender.raw_stats(), Some(snapshot));
    assert_eq!(STATS_INTERVAL_MS, 1000);
}

#[test]
fn split_read_preserves_bytes_and_order() {
    // One block larger than the request is delivered in two reads whose
    // concatenation is the original block.
    let mut buf = StreamBuf::new();
    let block: Vec<u8> = (0..200u8).collect();
    let first = buf.accept_block(&block, 128);
    assert_eq!(first.len(), 128);
    let second = buf.read_buffered(128).unwrap();
    assert_eq!(second.len(), 72);
    let mut joined = first.clone();
    joined.extend_from_slice(&second);
    assert_eq!(joined, block);
    // The buffer is drained; a further buffered read answers nothing.
    assert!(buf.read_buffered(16).is_none());
}

#[test]
fn poll_read_prefers_buffered_bytes() {
    let mut buf = StreamBuf::new();
    let first = buf.accept_block(b"abcdef", 4);
    assert_eq!(&first[..], b"abcd");
    // Buffered data satisfies the request without a native poll.
    match buf.poll_read(4, None) {
        PollRead::Filled(bytes) => assert_eq!(&bytes[..], b"ef"),
        _ => panic!("buffered bytes must be delivered"),
    }
    // Empty buffer and no data: would block, never zero bytes.
    match buf.poll_read(4, Some(ReadOutcome { code: 0, block: None })) {
        PollRead::Pending => {},
        _ => panic!("no data must signal would-block"),
    }
    // Empty buffer and a failing poll.
    match buf.poll_read(4, Some(ReadOutcome { code: -1, block: None })) {
        PollRead::Failed => {},
        _ => panic!("a negative code is a failure"),
    }
}

#[test]
fn drain_step_interprets_endpoint_reads() {
    assert_eq!(drain_step(-1, true), DrainStep::Drained);
    assert_eq!(drain_step(-1, false), DrainStep::Failed);
    assert_eq!(drain_step(0, false), DrainStep::Drained);
    assert_eq!(drain_step(64, false), DrainStep::Again);
}

#[test]
fn connect_dispatches_once_and_maps_join_failures() {
    let mut pending: Connect = AsyncSender::connect_with_options(
        Profile::Main,
        "rist://127.0.0.1:15103",
        SenderOptions::new().recovery_maxbitrate(1_000_000),
    );
    assert_eq!(pending.poll_step(), ConnectAction::Dispatch);
    assert_eq!(pending.poll_step(), ConnectAction::Await);
    assert_eq!(pending.poll_step(), ConnectAction::Await);

    // A worker that failed to complete is the background-task kind.
    match Connect::complete(ConnectJoin::Failed(String::from("worker gone"))) {
        Err(Error::JoinError(reason)) => assert_eq!(reason, "worker gone"),
        other => panic!("expected the background-task kind, got {:?}", other),
    }
}

#[test]
fn connect_blocking_maps_each_failure_point() {
    let options = SenderOptions::new();
    assert!(matches!(
        AsyncSender::connect_blocking(
            Profile::Main,
            "rist://h:1",
            &options,
            CreateOutcome { code: -1, handle: 0 },
            ok_parse(),
            0,
            0
        ),
        Err(Error::ContextCreation)
    ));
    assert!(matches!(
        AsyncSender::connect_blocking(
            Profile::Main,
            "rist://h:1",
            &options,
            ok_create(),
            ParseOutcome { code: -1, config: None },
            0,
            0
        ),
        Err(Error::UrlParse(_))
    ));
    assert!(matches!(
        AsyncSender::connect_blocking(
            Profile::Main,
            "rist://h:1",
            &options,
            ok_create(),
            ok_parse(),
            -1,
            0
        ),
        Err(Error::PeerCreation(_))
    ));
    assert!(matches!(
        AsyncSender::connect_blocking(
            Profile::Main,
            "rist://h:1",
            &options,
            ok_create(),
            ok_parse(),
            0,
            -1
        ),
        Err(Error::Start)
    ));
}

#[test]
fn async_send_maps_codes_and_join_failures() {
    let sender = AsyncSender::connect_blocking(
        Profile::Main,
        "rist://127.0.0.1:15104",
        &SenderOptions::new(),
        ok_create(),
        ok_parse(),
        0,
        0,
    )
    .unwrap();
    assert_eq!(sender.send(b"abc", SendJoin::Finished(3)).unwrap(), 3);
    assert!(matches!(sender.send(b"abc", SendJoin::Finished(-1)), Err(Error::Send)));
    assert!(matches!(
        sender.send(b"abc", SendJoin::Failed(String::from("pool down"))),
        Err(Error::JoinError(_))
    ));
    assert_eq!(sender.poll_write(b"abcd", 4).unwrap(), 4);
    assert!(matches!(sender.poll_write(b"abcd", -2), Err(Error::Send)));
}

#[test]
fn async_recv_maps_poll_outcomes() {
    let receiver =
        AsyncReceiver::bind(Profile::Main, "rist://@:15105", ok_create(), ok_parse(), 0, 0)
            .unwrap();
    // The benign race: a wakeup with nothing to read is not an error.
    assert!(receiver.recv(ReadOutcome { code: 0, block: None }).unwrap().is_none());
    assert!(receiver.try_recv(ReadOutcome { code: 0, block: None }).unwrap().is_none());
    assert!(matches!(
        receiver.recv(ReadOutcome { code: -1, block: None }),
        Err(Error::Read)
    ));
    let payload = vec![9u8; 16];
    let outcome = ReadOutcome {
        code: 16,
        block: Some(DataBlock::from_raw(payload.clone(), 7, 1)),
    };
    let block = receiver.recv(outcome).unwrap().unwrap();
    assert_eq!(block.payload(), &payload[..]);
    assert_eq!(block.timestamp(), 7);
    assert_eq!(block.flow_id(), 1);
}

#[test]
fn bind_failure_kinds() {
    assert!(matches!(
        AsyncReceiver::bind(
            Profile::Main,
            "rist://@:1",
            CreateOutcome { code: 0, handle: 0 },
            ok_parse(),
            0,
            0
        ),
        Err(Error::ContextCreation)
    ));
    assert!(matches!(
        AsyncReceiver::bind(Profile::Main, "rist://@:1", ok_create(), ok_parse(), 0, -1),
        Err(Error::Start)
    ));
    match AsyncReceiver::bind(Profile::Main, "rist://@\0:1", ok_create(), ok_parse(), 0, 0) {
        Err(Error::NulError(url)) => assert_eq!(url, "rist://@\0:1"),
        other => panic!("expected the invalid-string kind, got {:?}", other),
    }
}

#[test]
fn send_descriptor_packages_payload_and_flow() {
    let tx = started_sender();
    assert_eq!(tx.raw(), 5);
    let descriptor = tx.send_descriptor(b"abc", 42).unwrap();
    assert_eq!(&descriptor.payload[..], b"abc");
    assert_eq!(descriptor.flow_id, 42);
    assert_eq!(descriptor.ts_ntp, 0);
    assert_eq!(descriptor.flags, 0);
    assert_eq!(descriptor.seq, 0);
    assert_eq!(descriptor.virt_src_port, 0);
    assert_eq!(descriptor.virt_dst_port, 0);
    let stopped = Sender::new(Profile::Main, ok_create()).unwrap();
    assert!(matches!(stopped.send_descriptor(b"abc", 0), Err(Error::NotStarted)));
}

#[test]
fn prepare_peer_config_applies_only_set_options() {
    let options = ReceiverOptions::new().recovery_maxbitrate(7_000);
    let config = rist::readiness::prepare_peer_config("rist://@:1", ok_parse(), &options).unwrap();
    assert_eq!(config.recovery_maxbitrate, 7_000);
    assert_eq!(config.recovery_length_min, 1000);

    let sender_options = SenderOptions::new().recovery_mode(RecoveryMode::Disabled);
    let config =
        AsyncSender::prepare_peer_config("rist://h:1", ok_parse(), &sender_options).unwrap();
    assert_eq!(config.recovery_mode, 1);
    assert_eq!(config.recovery_maxbitrate, 100_000_000);

    match rist::readiness::prepare_peer_config("bad\0addr", ok_parse(), &ReceiverOptions::new()) {
        Err(Error::NulError(url)) => assert_eq!(url, "bad\0addr"),
        other => panic!("expected the invalid-string kind, got {:?}", other),
    }
}
