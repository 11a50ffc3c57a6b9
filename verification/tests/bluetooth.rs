use podbridge::airpods::{AirPodsModel, BatteryInfo, BatteryLevel, BluetoothAddress, NoiseControlMode};
use podbridge::bluetooth::discovery::{
    is_proximity_pairing_candidate, looks_like_airpods, lower_name_looks_like_airpods,
    model_from_lower_name, model_from_name, paired_device, BatteryCache,
};
use podbridge::bluetooth::linux::LinuxBluetoothBackend;
use podbridge::bluetooth::scanner::{identify_from_advertisement, AdvertisementData};
use podbridge::bluetooth::BluetoothBackend;
use podbridge::error::{BridgeError, Platform};

fn adv(name: Option<&str>, data: Option<Vec<u8>>) -> AdvertisementData {
    AdvertisementData {
        address: BluetoothAddress(0x1122_3344_5566),
        name: name.map(|n| n.to_string()),
        manufacturer_data: data,
    }
}

#[test]
fn advertisement_identifies_airpods_4() {
    let d = identify_from_advertisement(&adv(Some("Kitchen Pods"), Some(vec![0x07, 0x20, 0x24])))
        .unwrap();
    assert_eq!(d.model, AirPodsModel::AirPods4);
    assert_eq!(d.name, "Kitchen Pods");
    assert_eq!(d.address, BluetoothAddress(0x1122_3344_5566));
    assert_eq!(d.battery, BatteryInfo::unknown());
    assert!(!d.is_connected);
    assert_eq!(d.noise_mode, None);
}

#[test]
fn advertisement_without_name_uses_display_name() {
    let d = identify_from_advertisement(&adv(None, Some(vec![0x0A, 0x00, 0x00, 0x99]))).unwrap();
    assert_eq!(d.model, AirPodsModel::AirPodsMax1);
    assert_eq!(d.name, "AirPods Max");
    let d = identify_from_advertisement(&adv(None, Some(vec![0x07, 0x20, 0x25]))).unwrap();
    assert_eq!(d.model, AirPodsModel::AirPods4Basic);
    assert_eq!(d.name, "AirPods 4");
}

#[test]
fn advertisement_that_is_not_airpods() {
    assert!(identify_from_advertisement(&adv(Some("x"), None)).is_none());
    assert!(identify_from_advertisement(&adv(Some("x"), Some(vec![0x07, 0x20]))).is_none());
    assert!(identify_from_advertisement(&adv(Some("x"), Some(vec![0x07, 0x24, 0x20]))).is_none());
    assert!(identify_from_advertisement(&adv(Some("x"), Some(vec![0x10, 0x20, 0x24]))).is_none());
}

#[test]
fn names_that_look_like_airpods() {
    assert!(looks_like_airpods("Anna's AirPods Max"));
    assert!(looks_like_airpods("AIR PODS"));
    assert!(looks_like_airpods("airpods"));
    assert!(!looks_like_airpods("Galaxy Buds"));
    assert!(!looks_like_airpods("Air Pod"));
    assert!(!looks_like_airpods(""));
    assert!(lower_name_looks_like_airpods("my air pods"));
    assert!(!lower_name_looks_like_airpods("AirPods"));
}

#[test]
fn models_from_names() {
    assert_eq!(model_from_name("Anna's AirPods Max"), AirPodsModel::AirPodsMax1);
    assert_eq!(model_from_name("AirPods 4"), AirPodsModel::AirPods4);
    assert_eq!(model_from_name("airpods4 (2)"), AirPodsModel::AirPods4);
    assert_eq!(model_from_name("AirPods Pro"), AirPodsModel::Unknown);
    assert_eq!(model_from_name("MAXIMUM airpods 4"), AirPodsModel::AirPodsMax1);
    assert_eq!(model_from_lower_name("airpods 4"), AirPodsModel::AirPods4);
    assert_eq!(model_from_lower_name("AirPods Max"), AirPodsModel::Unknown);
}

#[test]
fn proximity_pairing_candidates() {
    assert!(is_proximity_pairing_candidate(0x004C, 8));
    assert!(is_proximity_pairing_candidate(0x004C, 27));
    assert!(!is_proximity_pairing_candidate(0x004C, 7));
    assert!(!is_proximity_pairing_candidate(0x0006, 27));
}

fn level(v: u8) -> BatteryLevel {
    BatteryLevel(Some(v))
}

#[test]
fn cache_reads_back_what_was_recorded() {
    let mut cache = BatteryCache::new();
    assert_eq!(cache.lookup(5), None);
    assert_eq!(cache.battery_for(&BluetoothAddress(5)), BatteryInfo::unknown());
    let a = BatteryInfo { left: level(10), right: level(20), case: level(30), is_charging: true };
    let b = BatteryInfo { left: level(90), right: BatteryLevel(None), case: level(0), is_charging: false };
    cache.record(5, a);
    cache.record(6, b);
    assert_eq!(cache.lookup(5), Some(a));
    assert_eq!(cache.battery_for(&BluetoothAddress(6)), b);
    cache.record(5, b);
    assert_eq!(cache.battery_for(&BluetoothAddress(5)), b);
    assert_eq!(cache.battery_for(&BluetoothAddress(7)), BatteryInfo::unknown());
}

#[test]
fn paired_device_takes_cached_battery() {
    let mut cache = BatteryCache::new();
    let a = BatteryInfo { left: level(50), right: level(60), case: level(70), is_charging: false };
    cache.record(42, a);
    let d = paired_device("Bob's AirPods 4".to_string(), 42, true, &cache);
    assert_eq!(d.address, BluetoothAddress(42));
    assert_eq!(d.model, AirPodsModel::AirPods4);
    assert_eq!(d.battery, a);
    assert!(d.is_connected);
    let e = paired_device("AirPods Max".to_string(), 43, false, &cache);
    assert_eq!(e.model, AirPodsModel::AirPodsMax1);
    assert_eq!(e.battery, BatteryInfo::unknown());
    assert!(!e.is_connected);
}

#[test]
fn linux_backend_answers() {
    let backend = LinuxBluetoothBackend::new().unwrap();
    assert!(backend.paired_devices().unwrap().is_empty());
    assert_eq!(backend.get_battery(&BluetoothAddress(1)).unwrap(), BatteryInfo::unknown());
    assert!(backend.connect(&BluetoothAddress(1)).is_ok());
    assert!(backend.disconnect(&BluetoothAddress(1)).is_ok());
    let err = backend
        .set_noise_control(&BluetoothAddress(0xAABB_CCDD_EEFF), NoiseControlMode::Off)
        .unwrap_err();
    assert!(matches!(
        err,
        BridgeError::NoiseControlUnavailable { platform: Platform::Linux, address: BluetoothAddress(0xAABB_CCDD_EEFF) }
    ));
    assert_eq!(
        err.to_string(),
        "ANC control not yet implemented on Linux (address: AA:BB:CC:DD:EE:FF)"
    );
}

#[test]
fn error_messages() {
    assert_eq!(BridgeError::UnsupportedPlatform.to_string(), "Unsupported platform");
    assert_eq!(BridgeError::Os("boom".to_string()).to_string(), "boom");
    let e = BridgeError::NoiseControlUnavailable {
        platform: Platform::Windows,
        address: BluetoothAddress(1),
    };
    assert_eq!(e.to_string(), "ANC control not yet implemented on Windows (address: 00:00:00:00:00:01)");
}
