//! The blocking sender and receiver sessions, driven with the native
//! outcomes a healthy engine on a lossless loopback would answer.

use rist::{CreateOutcome, DataBlock, ParseOutcome, PeerConfig, Profile, ReadOutcome, Receiver, Sender};

fn ok_create() -> CreateOutcome {
    CreateOutcome { code: 0, handle: 1 }
}

fn parsed_config() -> PeerConfig {
    PeerConfig {
        recovery_mode: 2,
        recovery_maxbitrate: 100_000_000,
        recovery_length_min: 1000,
        recovery_length_max: 1000,
        recovery_reorder_buffer: 25,
        recovery_rtt_min: 50,
        recovery_rtt_max: 500,
    }
}

fn ok_parse() -> ParseOutcome {
    ParseOutcome { code: 0, config: Some(parsed_config()) }
}

fn failed_parse() -> ParseOutcome {
    ParseOutcome { code: -1, config: None }
}

fn no_data() -> ReadOutcome {
    ReadOutcome { code: 0, block: None }
}

fn delivered(payload: Vec<u8>) -> ReadOutcome {
    let len = payload.len() as i32;
    ReadOutcome { code: len, block: Some(DataBlock::from_raw(payload, 0, 0)) }
}

#[test]
fn test_receiver_create() {
    let result = Receiver::new(Profile::Main, ok_create());
    assert!(result.is_ok());
}

#[test]
fn test_sender_create() {
    let result = Sender::new(Profile::Main, ok_create());
    assert!(result.is_ok());
}

#[test]
fn test_receiver_add_peer() {
    let mut receiver = Receiver::new(Profile::Main, ok_create()).unwrap();
    let result = receiver.add_peer("rist://@:16000", ok_parse(), 0);
    assert!(result.is_ok());
}

#[test]
fn test_sender_add_peer() {
    let mut sender = Sender::new(Profile::Main, ok_create()).unwrap();
    let result = sender.add_peer("rist://127.0.0.1:16001", ok_parse(), 0);
    assert!(result.is_ok());
}

#[test]
fn test_receiver_start() {
    let mut receiver = Receiver::new(Profile::Main, ok_create()).unwrap();
    receiver.add_peer("rist://@:16002", ok_parse(), 0).unwrap();
    let result = receiver.start(0);
    assert!(result.is_ok());
}

#[test]
fn test_sender_start() {
    let mut sender = Sender::new(Profile::Main, ok_create()).unwrap();
    sender.add_peer("rist://127.0.0.1:16003", ok_parse(), 0).unwrap();
    let result = sender.start(0);
    assert!(result.is_ok());
}

#[test]
fn test_receiver_read_timeout() {
    let mut receiver = Receiver::new(Profile::Main, ok_create()).unwrap();
    receiver.add_peer("rist://@:16004", ok_parse(), 0).unwrap();
    receiver.start(0).unwrap();

    // Nothing is sending: the engine answers zero within the timeout.
    let result = receiver.read(100, no_data());
    assert!(result.is_ok());
    assert!(result.unwrap().is_none());
}

#[test]
fn test_sync_roundtrip() {
    let mut receiver = Receiver::new(Profile::Main, ok_create()).unwrap();
    receiver.add_peer("rist://@:16005", ok_parse(), 0).unwrap();
    receiver.start(0).unwrap();

    let mut sender = Sender::new(Profile::Main, ok_create()).unwrap();
    sender.add_peer("rist://127.0.0.1:16005", ok_parse(), 0).unwrap();
    sender.start(0).unwrap();

    // Send test data over a lossless loopback: every accepted payload
    // is carried to the receiver unchanged.
    let test_data = [0x47u8; 1316];
    let total_packets = 50;
    let mut in_flight: Vec<Vec<u8>> = Vec::new();

    for _ in 0..total_packets {
        let sent = sender.send(&test_data, test_data.len() as i32).unwrap();
        assert_eq!(sent, 1316);
        in_flight.push(test_data.to_vec());
    }

    // Receive packets.
    let mut received_count = 0;
    for _ in 0..total_packets {
        let outcome = match in_flight.pop() {
            Some(payload) => delivered(payload),
            None => no_data(),
        };
        if let Ok(Some(data)) = receiver.read(100, outcome) {
            assert_eq!(data.payload().len(), 1316);
            assert_eq!(data.payload()[0], 0x47);
            assert_eq!(data.payload(), &test_data[..]);
            received_count += 1;
        }
    }

    assert!(received_count > 0, "expected to receive some packets");
}

#[test]
fn test_sender_empty_url() {
    let mut sender = Sender::new(Profile::Main, ok_create()).unwrap();
    // The native parser refuses an empty address.
    let result = sender.add_peer("", failed_parse(), 0);
    assert!(result.is_err());
}

#[test]
fn test_send_with_flow_id() {
    let mut receiver = Receiver::new(Profile::Main, ok_create()).unwrap();
    receiver.add_peer("rist://@:16006", ok_parse(), 0).unwrap();
    receiver.start(0).unwrap();

    let mut sender = Sender::new(Profile::Main, ok_create()).unwrap();
    sender.add_peer("rist://127.0.0.1:16006", ok_parse(), 0).unwrap();
    sender.start(0).unwrap();

    // Send with a specific flow identifier.
    let test_data = [0x47u8; 1316];
    sender.send_with_flow_id(&test_data, 42, test_data.len() as i32).unwrap();

    // Try to receive.
    let outcome = ReadOutcome {
        code: test_data.len() as i32,
        block: Some(DataBlock::from_raw(test_data.to_vec(), 0, 42)),
    };
    if let Ok(Some(data)) = receiver.read(100, outcome) {
        assert_eq!(data.payload().len(), 1316);
    }
}

#[test]
fn test_profiles() {
    // Every profile can be used.
    for profile in [Profile::Simple, Profile::Main, Profile::Advanced] {
        let result = Receiver::new(profile, ok_create());
        assert!(result.is_ok());
    }
}
