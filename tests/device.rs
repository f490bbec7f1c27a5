use std::collections::HashMap;

use colmi_client::device::{
    filter_devices, resolve_characteristics, CharacteristicRef, Device, ServiceInfo,
    COLMI_MANUFACTURER_ID, NOTIFY_CHARACTERISTICS, SERVICE_UUID, WRITE_CHARACTERISTICS,
};
use colmi_client::error::{ConnectionError, ScanError};

fn device(name: &str, vendor: bool) -> Device {
    Device { name: name.to_string(), id: format!("id-{}", name), is_colmi_device: vendor }
}

#[test]
fn device_classified_by_manufacturer_data() {
    let mut data: HashMap<u16, Vec<u8>> = HashMap::new();
    data.insert(76, vec![1, 2]);
    let other = Device::new(Some("Watch".to_string()), "AA".to_string(), &data);
    assert!(!other.is_colmi_device());
    data.insert(COLMI_MANUFACTURER_ID, vec![]);
    let ring = Device::new(None, "BB".to_string(), &data);
    assert!(ring.is_colmi_device());
    assert_eq!(ring.name(), "Unknown Device");
    assert_eq!(ring.id(), "BB");
}

#[test]
fn display_name_shows_name_and_id() {
    let d = Device { name: "R02".to_string(), id: "C0:11".to_string(), is_colmi_device: true };
    assert_eq!(d.display_name(), "R02, (C0:11)");
}

#[test]
fn scan_without_vendor_devices_is_told_apart_from_empty_scan() {
    let found = vec![device("a", false), device("b", false)];
    assert_eq!(filter_devices(found, true).err(), Some(ScanError::NoColmiDevices));
    assert_eq!(filter_devices(Vec::new(), true).err(), Some(ScanError::NoDevices));
    assert_eq!(filter_devices(Vec::new(), false).err(), Some(ScanError::NoDevices));
}

#[test]
fn filter_keeps_vendor_devices_in_order() {
    let found = vec![device("a", true), device("b", false), device("c", true)];
    let kept = filter_devices(found, true).unwrap();
    let names: Vec<&str> = kept.iter().map(|d| d.name()).collect();
    assert_eq!(names, vec!["a", "c"]);
}

#[test]
fn filter_off_keeps_everything() {
    let found = vec![device("a", false), device("b", false)];
    assert_eq!(filter_devices(found, false).unwrap().len(), 2);
}

#[test]
fn scan_error_messages() {
    assert_eq!(
        ScanError::NoColmiDevices.message(),
        "No Colmi devices found! Try `colmi_client scan --all` to see all devices."
    );
    assert_eq!(
        ScanError::BluetoothOperationFailed("adapter busy".to_string()).message(),
        "Bluetooth operation failed: adapter busy"
    );
    assert_ne!(ScanError::NoDevices.message(), ScanError::NoColmiDevices.message());
}

#[test]
fn characteristics_resolved_in_vendor_service() {
    let services = vec![
        ServiceInfo { uuid: 0x1800, characteristics: vec![WRITE_CHARACTERISTICS] },
        ServiceInfo {
            uuid: SERVICE_UUID,
            characteristics: vec![5, NOTIFY_CHARACTERISTICS, WRITE_CHARACTERISTICS],
        },
    ];
    let pair = resolve_characteristics(&services).unwrap();
    assert_eq!(pair.write, CharacteristicRef { service: 1, index: 2 });
    assert_eq!(pair.notify, CharacteristicRef { service: 1, index: 1 });
}

#[test]
fn later_characteristic_wins() {
    let services = vec![
        ServiceInfo { uuid: SERVICE_UUID, characteristics: vec![WRITE_CHARACTERISTICS, NOTIFY_CHARACTERISTICS] },
        ServiceInfo { uuid: SERVICE_UUID, characteristics: vec![NOTIFY_CHARACTERISTICS] },
    ];
    let pair = resolve_characteristics(&services).unwrap();
    assert_eq!(pair.write, CharacteristicRef { service: 0, index: 0 });
    assert_eq!(pair.notify, CharacteristicRef { service: 1, index: 0 });
}

#[test]
fn missing_characteristic_is_reported() {
    let services = vec![
        ServiceInfo { uuid: SERVICE_UUID, characteristics: vec![WRITE_CHARACTERISTICS] },
        ServiceInfo { uuid: 0x180f, characteristics: vec![NOTIFY_CHARACTERISTICS] },
    ];
    assert_eq!(
        resolve_characteristics(&services).err(),
        Some(ConnectionError::CharacteristicsNotFound)
    );
    assert_eq!(
        resolve_characteristics(&Vec::new()).err(),
        Some(ConnectionError::CharacteristicsNotFound)
    );
    assert_eq!(
        ConnectionError::CharacteristicsNotFound.message(),
        "No matching characteristics found on selected device!"
    );
}
