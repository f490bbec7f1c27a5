use colmi_client::channel::{DeviceManager, StreamEvent};
use colmi_client::device::NOTIFY_CHARACTERISTICS;
use colmi_client::error::{ConnectionError, DeviceError, ProtocolError};
use colmi_client::protocol::battery::BatteryResponse;
use colmi_client::protocol::features::FeatureResponse;

fn frame(head: &[u8]) -> Vec<u8> {
    let mut bytes = vec![0u8; 16];
    bytes[..head.len()].copy_from_slice(head);
    let sum: u32 = bytes[..15].iter().map(|&b| b as u32).sum();
    bytes[15] = (sum % 256) as u8;
    bytes
}

fn notified(head: &[u8]) -> StreamEvent {
    StreamEvent::Notification { source: NOTIFY_CHARACTERISTICS, value: frame(head) }
}

#[test]
fn correlated_read_returns_first_matching_frame() {
    let events = vec![notified(&[9, 1]), notified(&[9, 2]), notified(&[1, 3]), notified(&[9, 4])];
    let r: Result<FeatureResponse, DeviceError> =
        DeviceManager::read_response_stream(1, NOTIFY_CHARACTERISTICS, &events);
    let response = r.unwrap();
    assert_eq!(response.command_id, 1);
    assert!(response.supports_temperature);
    assert!(!response.supports_plate);
}

#[test]
fn correlated_read_times_out_without_a_match() {
    let events = vec![notified(&[9]), notified(&[9]), StreamEvent::TimedOut, notified(&[1])];
    let r: Result<FeatureResponse, DeviceError> =
        DeviceManager::read_response_stream(1, NOTIFY_CHARACTERISTICS, &events);
    assert_eq!(r.err(), Some(DeviceError::Timeout));
}

#[test]
fn correlated_read_reports_an_ended_stream() {
    let events = vec![notified(&[9]), StreamEvent::Ended];
    let r: Result<BatteryResponse, DeviceError> =
        DeviceManager::read_response_stream(3, NOTIFY_CHARACTERISTICS, &events);
    assert_eq!(r.err(), Some(DeviceError::StreamEnded));
    let none: Vec<StreamEvent> = Vec::new();
    let r: Result<BatteryResponse, DeviceError> =
        DeviceManager::read_response_stream(3, NOTIFY_CHARACTERISTICS, &none);
    assert_eq!(r.err(), Some(DeviceError::StreamEnded));
}

#[test]
fn correlated_read_discards_malformed_and_foreign_frames() {
    let mut corrupt = frame(&[3, 10]);
    corrupt[15] = corrupt[15].wrapping_add(1);
    let events = vec![
        StreamEvent::Notification { source: NOTIFY_CHARACTERISTICS, value: corrupt },
        StreamEvent::Notification { source: 7, value: frame(&[3, 20]) },
        StreamEvent::Notification { source: NOTIFY_CHARACTERISTICS, value: vec![3, 30] },
        notified(&[3, 40, 1]),
    ];
    let r: Result<BatteryResponse, DeviceError> =
        DeviceManager::read_response_stream(3, NOTIFY_CHARACTERISTICS, &events);
    let reading = r.unwrap();
    assert_eq!((reading.charge_pct, reading.is_charging), (40, true));
}

#[test]
fn single_stream_event_decisions() {
    let r: Option<Result<BatteryResponse, DeviceError>> =
        DeviceManager::on_stream_event(3, NOTIFY_CHARACTERISTICS, &notified(&[9]));
    assert!(r.is_none());
    let r: Option<Result<BatteryResponse, DeviceError>> =
        DeviceManager::on_stream_event(3, NOTIFY_CHARACTERISTICS, &StreamEvent::TimedOut);
    assert_eq!(r.map(|x| x.err()), Some(Some(DeviceError::Timeout)));
}

#[test]
fn direct_read_outcomes() {
    let r: Result<BatteryResponse, DeviceError> = DeviceManager::read_response(None);
    assert_eq!(r.err(), Some(DeviceError::Connection(ConnectionError::ReadFailed)));
    let r: Result<BatteryResponse, DeviceError> = DeviceManager::read_response(Some(vec![1, 2]));
    assert_eq!(r.err(), Some(DeviceError::Protocol(ProtocolError::InvalidPacketLength)));
    let r: Result<BatteryResponse, DeviceError> =
        DeviceManager::read_response(Some(frame(&[3, 55, 0])));
    assert_eq!(r.unwrap().charge_pct, 55);
}

#[test]
fn device_error_messages() {
    assert_eq!(DeviceError::Timeout.message(), "Operation timed out");
    assert_eq!(DeviceError::StreamEnded.message(), "Notification stream ended");
    assert_eq!(
        DeviceError::Connection(ConnectionError::WriteFailed).message(),
        "Failed to write data to selected device!"
    );
    assert_eq!(
        DeviceError::Protocol(ProtocolError::InvalidPacketLength).message(),
        "Invalid packet length"
    );
}

#[test]
fn errors_convert_into_device_errors() {
    assert_eq!(
        DeviceError::from(ConnectionError::SubscribeFailed),
        DeviceError::Connection(ConnectionError::SubscribeFailed)
    );
    assert_eq!(
        DeviceError::from(ProtocolError::InvalidPacketLength),
        DeviceError::Protocol(ProtocolError::InvalidPacketLength)
    );
}
