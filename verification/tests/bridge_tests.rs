//! Tests for the single-slot transport bridge.

use a121_rs::hal::{TransportBridge, TransferRecord};
use a121_rs::sensor::SensorError;

#[test]
fn transfer_exchanges_bytes_in_place() {
    let mut bridge = TransportBridge::new();
    assert!(!bridge.is_registered());
    let token = bridge.register(7);
    assert!(bridge.is_registered());
    let mut buffer = vec![0xAAu8, 0xBB, 0xCC];
    let response = vec![0x11u8, 0x22, 0x33];
    let record = bridge.transfer(&token, &mut buffer, &response, true);
    assert_eq!(record, Ok(TransferRecord { device: 7, len: 3, seq: 0 }));
    assert_eq!(buffer, vec![0x11, 0x22, 0x33]);
}

#[test]
fn unregistered_bridge_refuses_transfer() {
    let mut bridge = TransportBridge::new();
    let token = bridge.register(1);
    let mut other = TransportBridge::new();
    let mut buffer = vec![1u8];
    let response = vec![2u8];
    assert_eq!(
        other.transfer(&token, &mut buffer, &response, true),
        Err(SensorError::TransportError)
    );
    assert_eq!(buffer, vec![1]);
}

#[test]
fn device_failure_is_fatal_and_leaves_buffer() {
    let mut bridge = TransportBridge::new();
    let token = bridge.register(4);
    let mut buffer = vec![9u8, 9];
    let response = vec![1u8, 2];
    assert_eq!(
        bridge.transfer(&token, &mut buffer, &response, false),
        Err(SensorError::TransportError)
    );
    assert_eq!(buffer, vec![9, 9]);
}

#[test]
fn reregistration_keeps_completed_transfer_and_serves_next() {
    let mut bridge = TransportBridge::new();
    let first_token = bridge.register(1);
    let mut buffer = vec![0u8, 0];
    let response = vec![5u8, 6];
    let completed = bridge.transfer(&first_token, &mut buffer, &response, true);
    assert_eq!(completed, Ok(TransferRecord { device: 1, len: 2, seq: 0 }));

    // re-register a new device mid-run
    let second_token = bridge.register(2);

    // the completed transfer is unaffected: its record and the exchanged
    // bytes stand as they were
    assert_eq!(completed, Ok(TransferRecord { device: 1, len: 2, seq: 0 }));
    assert_eq!(buffer, vec![5, 6]);

    // the very next transfer is served by the newly registered device
    let mut next_buffer = vec![0u8];
    let next = bridge.transfer(&second_token, &mut next_buffer, &vec![9u8], true);
    assert_eq!(next, Ok(TransferRecord { device: 2, len: 1, seq: 1 }));

    // a token from before the re-registration is stale and refused
    let mut stale_buffer = vec![3u8];
    assert_eq!(
        bridge.transfer(&first_token, &mut stale_buffer, &vec![4u8], true),
        Err(SensorError::TransportError)
    );
    assert_eq!(stale_buffer, vec![3]);
}
