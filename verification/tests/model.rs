use podbridge::airpods::models::{
    model_from_continuity, APPLE_COMPANY_ID, DEVICE_TYPE_AIRPODS, DEVICE_TYPE_AIRPODS_MAX,
};
use podbridge::airpods::{
    AirPodsDevice, AirPodsModel, BatteryInfo, BatteryLevel, BluetoothAddress, NoiseControlMode,
};

#[test]
fn continuity_ids_map_to_models() {
    assert_eq!(model_from_continuity(0x0A, 0x0000), AirPodsModel::AirPodsMax1);
    assert_eq!(model_from_continuity(0x0A, 0x2024), AirPodsModel::AirPodsMax1);
    assert_eq!(model_from_continuity(0x07, 0x2024), AirPodsModel::AirPods4);
    assert_eq!(model_from_continuity(0x07, 0x2025), AirPodsModel::AirPods4Basic);
    assert_eq!(model_from_continuity(0x07, 0x2026), AirPodsModel::Unknown);
    assert_eq!(model_from_continuity(0x01, 0x2024), AirPodsModel::Unknown);
}

#[test]
fn constants() {
    assert_eq!(APPLE_COMPANY_ID, 0x004C);
    assert_eq!(DEVICE_TYPE_AIRPODS, 0x07);
    assert_eq!(DEVICE_TYPE_AIRPODS_MAX, 0x0A);
}

#[test]
fn capabilities_follow_supported_devices_table() {
    assert!(AirPodsModel::AirPodsMax1.has_anc());
    assert!(!AirPodsModel::AirPodsMax1.has_case_battery());
    assert!(AirPodsModel::AirPods4.has_anc());
    assert!(AirPodsModel::AirPods4.has_case_battery());
    assert!(!AirPodsModel::AirPods4Basic.has_anc());
    assert!(AirPodsModel::AirPods4Basic.has_case_battery());
    assert!(!AirPodsModel::Unknown.has_anc());
    assert!(!AirPodsModel::Unknown.has_case_battery());
}

#[test]
fn display_names() {
    assert_eq!(AirPodsModel::AirPodsMax1.display_name(), "AirPods Max");
    assert_eq!(AirPodsModel::AirPods4.display_name(), "AirPods 4 (ANC)");
    assert_eq!(AirPodsModel::AirPods4Basic.display_name(), "AirPods 4");
    assert_eq!(AirPodsModel::Unknown.display_name(), "Unknown AirPods");
}

#[test]
fn new_device_starts_unknown_and_disconnected() {
    let d = AirPodsDevice::new(BluetoothAddress(7), "Pods".to_string(), AirPodsModel::AirPods4);
    assert_eq!(d.address, BluetoothAddress(7));
    assert_eq!(d.name, "Pods");
    assert_eq!(d.model, AirPodsModel::AirPods4);
    assert_eq!(d.battery, BatteryInfo::unknown());
    assert_eq!(d.noise_mode, None);
    assert!(!d.is_connected);
}

#[test]
fn address_text() {
    assert_eq!(BluetoothAddress(0x0000_A1B2_C3D4_E5F6).to_string(), "A1:B2:C3:D4:E5:F6");
    assert_eq!(BluetoothAddress(0).to_string(), "00:00:00:00:00:00");
    assert_eq!(BluetoothAddress(0xFFFF_0001_0203_0A0B).to_string(), "00:01:02:03:0A:0B");
    assert_eq!(BluetoothAddress(u64::MAX).to_string().len(), 17);
}

#[test]
fn battery_level_text() {
    assert_eq!(BatteryLevel(Some(0)).to_string(), "0%");
    assert_eq!(BatteryLevel(Some(7)).to_string(), "7%");
    assert_eq!(BatteryLevel(Some(40)).to_string(), "40%");
    assert_eq!(BatteryLevel(Some(100)).to_string(), "100%");
    assert_eq!(BatteryLevel(Some(255)).to_string(), "255%");
    assert_eq!(BatteryLevel(None).to_string(), "?");
}

#[test]
fn noise_mode_text() {
    assert_eq!(NoiseControlMode::Off.to_string(), "Off");
    assert_eq!(NoiseControlMode::NoiseCancellation.to_string(), "ANC");
    assert_eq!(NoiseControlMode::Transparency.to_string(), "Transparency");
    assert_eq!(NoiseControlMode::Adaptive.to_string(), "Adaptive");
}
