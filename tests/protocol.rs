use colmi_client::error::ProtocolError;
use colmi_client::protocol::battery::{BatteryRequest, BatteryResponse};
use colmi_client::protocol::blink::BlinkRequest;
use colmi_client::protocol::features::{CalendarTime, FeatureRequest, FeatureResponse};
use colmi_client::protocol::find::FindRequest;
use colmi_client::protocol::reboot::RebootRequest;
use colmi_client::protocol::reset::ResetRequest;
use colmi_client::protocol::{calculate_checksum, Request, Response};

fn frame(head: &[u8]) -> Vec<u8> {
    let mut bytes = vec![0u8; 16];
    bytes[..head.len()].copy_from_slice(head);
    let sum: u32 = bytes[..15].iter().map(|&b| b as u32).sum();
    bytes[15] = (sum % 256) as u8;
    bytes
}

#[test]
fn checksum_sums_first_fifteen_bytes_modulo_256() {
    let mut bytes = vec![200u8, 100, 1];
    bytes.resize(16, 0);
    bytes[15] = 99;
    assert_eq!(calculate_checksum(&bytes), 45);
    assert_eq!(calculate_checksum(&[0u8; 15]), 0);
}

#[test]
fn battery_request_frame() {
    let req = BatteryRequest::new();
    let mut expected = [0u8; 16];
    expected[0] = 3;
    expected[15] = 3;
    assert_eq!(req.as_bytes(), expected);
    assert_eq!(req.update_checksum(), 3);
}

#[test]
fn simple_command_frames() {
    let blink = BlinkRequest::new().as_bytes();
    assert_eq!((blink[0], blink[15]), (16, 16));
    let reboot = RebootRequest::new().as_bytes();
    assert_eq!((reboot[0], reboot[15]), (8, 8));
    let reset = ResetRequest::new().as_bytes();
    assert_eq!((reset[0], reset[15]), (255, 255));
    assert!(reset[1..15].iter().all(|&b| b == 0));
}

#[test]
fn find_request_frame() {
    let bytes = FindRequest::new().as_bytes();
    let mut expected = [0u8; 16];
    expected[0] = 80;
    expected[1] = 85;
    expected[2] = 170;
    expected[15] = 79;
    assert_eq!(bytes, expected);
}

#[test]
fn feature_request_carries_the_time() {
    let time = CalendarTime { year: 2026, month: 10, day: 18, hour: 13, minute: 5, second: 9 };
    let req = FeatureRequest::at(&time);
    let bytes = req.as_bytes();
    assert_eq!(&bytes[..7], &[1, 26, 10, 18, 13, 5, 9]);
    assert!(bytes[7..15].iter().all(|&b| b == 0));
    assert_eq!(bytes[15], 82);
}

#[test]
fn feature_request_year_before_the_epoch_of_the_century() {
    let time = CalendarTime { year: -5, month: 1, day: 1, hour: 0, minute: 0, second: 0 };
    assert_eq!(FeatureRequest::at(&time).year, 251);
    let late = CalendarTime { year: 2300, month: 1, day: 1, hour: 0, minute: 0, second: 0 };
    assert_eq!(FeatureRequest::at(&late).year, 44);
}

#[test]
fn feature_request_now_is_well_formed() {
    let req = FeatureRequest::new();
    assert_eq!(req.command_id, 1);
    assert!((1..=12).contains(&req.month));
    assert!(req.hour < 24 && req.minute < 60 && req.seconds < 60);
    let bytes = req.as_bytes();
    assert_eq!(calculate_checksum(&bytes), bytes[15]);
}

#[test]
fn requests_round_trip_through_their_frames() {
    let battery = BatteryRequest::new();
    let back = BatteryRequest::from_bytes(battery.as_bytes().to_vec()).unwrap();
    assert_eq!((back.command_id, back.padding, back.checksum), (3, [0; 14], 3));

    let find = FindRequest::new();
    let back = FindRequest::from_bytes(find.as_bytes().to_vec()).unwrap();
    assert_eq!((back.command_id, back.data_1, back.data_2, back.checksum), (80, 85, 170, 79));

    let reset = ResetRequest::new();
    let back = ResetRequest::from_bytes(reset.as_bytes().to_vec()).unwrap();
    assert_eq!((back.command_id, back.checksum), (255, 255));

    let time = CalendarTime { year: 2025, month: 3, day: 4, hour: 5, minute: 6, second: 7 };
    let features = FeatureRequest::at(&time);
    let back = FeatureRequest::from_bytes(features.as_bytes().to_vec()).unwrap();
    assert_eq!(
        (back.year, back.month, back.day_of_month, back.hour, back.minute, back.seconds),
        (25, 3, 4, 5, 6, 7)
    );
    assert_eq!(back.checksum, features.checksum);

    let blink = BlinkRequest::from_bytes(BlinkRequest::new().as_bytes().to_vec()).unwrap();
    assert_eq!(blink.command_id, 16);
    let reboot = RebootRequest::from_bytes(RebootRequest::new().as_bytes().to_vec()).unwrap();
    assert_eq!(reboot.command_id, 8);
}

#[test]
fn request_with_wrong_checksum_field_does_not_round_trip() {
    let mut req = BatteryRequest::new();
    req.checksum = 4;
    let err = BatteryRequest::from_bytes(req.as_bytes().to_vec()).err().unwrap();
    assert_eq!(err, ProtocolError::InvalidChecksum { calculated: 3, actual: 4 });
}

#[test]
fn decode_rejects_wrong_lengths() {
    for len in [0usize, 15, 17] {
        let bytes = vec![0u8; len];
        assert_eq!(
            BatteryResponse::from_bytes(bytes.clone()).err(),
            Some(ProtocolError::InvalidPacketLength)
        );
        assert_eq!(
            FeatureResponse::from_bytes(bytes).err(),
            Some(ProtocolError::InvalidPacketLength)
        );
    }
}

#[test]
fn decode_rejects_any_single_corrupted_byte() {
    let good = frame(&[3, 80, 1, 7, 9]);
    assert!(BatteryResponse::from_bytes(good.clone()).is_ok());
    for i in 0..15 {
        let mut bad = good.clone();
        bad[i] = bad[i].wrapping_add(1);
        match BatteryResponse::from_bytes(bad.clone()) {
            Err(ProtocolError::InvalidChecksum { calculated, actual }) => {
                assert_eq!(actual, good[15]);
                assert_eq!(calculated, good[15].wrapping_add(1));
            }
            _ => panic!("corrupted byte {} was accepted", i),
        }
    }
}

#[test]
fn battery_response_fields() {
    let r = BatteryResponse::from_bytes(frame(&[3, 80, 1])).unwrap();
    assert_eq!((r.command_id, r.charge_pct, r.is_charging), (3, 80, true));
    let r = BatteryResponse::from_bytes(frame(&[3, 42, 2])).unwrap();
    assert!(!r.is_charging);
    assert_eq!(r.describe(), "Battery level: 42% | Charging: false");
}

#[test]
fn feature_flags_of_byte_four() {
    let r = FeatureResponse::from_bytes(frame(&[1, 0, 0, 0, 0b0000_0011])).unwrap();
    assert!(r.supports_custom_wallpaper);
    assert!(r.supports_blood_oxygen);
    assert!(!r.supports_blood_pressure);
    assert!(!r.supports_unknown_feature);
    assert!(!r.supports_one_key_check);
    assert!(!r.supports_weather);
    assert!(!r.supports_wechat);
    assert!(!r.supports_avatar);
}

#[test]
fn feature_max_contacts() {
    let mut head = [0u8; 14];
    head[0] = 1;
    let r = FeatureResponse::from_bytes(frame(&head)).unwrap();
    assert_eq!(r.max_contacts, 20);
    head[13] = 5;
    let r = FeatureResponse::from_bytes(frame(&head)).unwrap();
    assert_eq!(r.max_contacts, 50);
    head[13] = 200;
    let r = FeatureResponse::from_bytes(frame(&head)).unwrap();
    assert_eq!(r.max_contacts, 2000);
}

#[test]
fn feature_fields_and_dimensions() {
    let head = [1u8, 1, 0, 1, 0x80, 0x40, 0x01, 0xf0, 0x00, 1, 7, 0b1_0001, 0b1101_0110, 0, 0b11_1101];
    let r = FeatureResponse::from_bytes(frame(&head)).unwrap();
    assert!(r.supports_temperature && !r.supports_plate && r.supports_menstruation);
    assert!(r.supports_avatar && !r.supports_wechat);
    assert_eq!((r.width, r.height), (320, 240));
    assert!(r.use_new_sleep_protocol);
    assert_eq!(r.max_watch_faces, 7);
    assert!(r.supports_contacts && r.supports_jeilei_music && !r.supports_lyrics);
    assert!(!r.supports_manual_heart_rate && r.supports_ecard && r.supports_location);
    assert!(r.supports_music && r.supports_ebook && r.supports_blood_sugar);
    assert!(r.supports_blood_pressure_settings && r.supports_4g && r.supports_nav_picture);
    assert!(r.supports_pressure && r.supports_hrv);
}

#[test]
fn protocol_error_messages() {
    let e = ProtocolError::InvalidChecksum { calculated: 12, actual: 7 };
    assert_eq!(e.message(), "Invalid checksum. Calculated: 12, Actual: 7");
    assert_eq!(ProtocolError::InvalidPacketLength.message(), "Invalid packet length");
}
