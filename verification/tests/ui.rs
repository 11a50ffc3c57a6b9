use podbridge::airpods::{AirPodsDevice, AirPodsModel, BatteryInfo, BatteryLevel, BluetoothAddress};
use podbridge::ui::icon::placeholder_icon_rgba;
use podbridge::ui::tray::{build_tooltip, device_summary};

fn device(name: &str, model: AirPodsModel, battery: BatteryInfo, connected: bool) -> AirPodsDevice {
    let mut d = AirPodsDevice::new(BluetoothAddress(1), name.to_string(), model);
    d.battery = battery;
    d.is_connected = connected;
    d
}

fn info(l: Option<u8>, r: Option<u8>, c: Option<u8>, charging: bool) -> BatteryInfo {
    BatteryInfo {
        left: BatteryLevel(l),
        right: BatteryLevel(r),
        case: BatteryLevel(c),
        is_charging: charging,
    }
}

#[test]
fn summary_with_case_battery() {
    let d = device("Pods", AirPodsModel::AirPods4, info(Some(80), Some(70), None, true), true);
    assert_eq!(device_summary(&d), "Pods — L:80% R:70% Case:? ⚡ [Connected]");
    let d = device("Pods", AirPodsModel::AirPods4Basic, info(Some(0), None, Some(100), false), false);
    assert_eq!(device_summary(&d), "Pods — L:0% R:? Case:100% [Disconnected]");
}

#[test]
fn summary_with_single_battery() {
    let d = device("Max", AirPodsModel::AirPodsMax1, info(Some(60), Some(10), Some(10), false), true);
    assert_eq!(device_summary(&d), "Max — 60% [Connected]");
    let d = device("Who", AirPodsModel::Unknown, info(None, None, None, true), false);
    assert_eq!(device_summary(&d), "Who — ? ⚡ [Disconnected]");
}

#[test]
fn tooltip_without_devices() {
    assert_eq!(build_tooltip(&[]), "PodBridge — no devices");
}

#[test]
fn tooltip_lists_each_device() {
    let a = device("A", AirPodsModel::AirPodsMax1, info(Some(50), None, None, false), true);
    let b = device("B", AirPodsModel::AirPods4, info(None, None, None, false), false);
    assert_eq!(build_tooltip(&[a.clone()]), "PodBridge\nA — 50% [Connected]");
    assert_eq!(
        build_tooltip(&[a, b]),
        "PodBridge\nA — 50% [Connected]\nB — L:? R:? Case:? [Disconnected]"
    );
}

#[test]
fn placeholder_icon_is_a_centered_disc() {
    let rgba = placeholder_icon_rgba();
    assert_eq!(rgba.len(), 32 * 32 * 4);
    let px = |x: usize, y: usize| &rgba[(y * 32 + x) * 4..(y * 32 + x) * 4 + 4];
    assert_eq!(px(15, 15), &[255, 255, 255, 255]);
    assert_eq!(px(0, 0), &[0, 0, 0, 0]);
    assert_eq!(px(31, 31), &[0, 0, 0, 0]);
    assert_eq!(px(2, 15), &[255, 255, 255, 255]);
    assert_eq!(px(1, 15), &[0, 0, 0, 0]);
    // Same pixels as the floating-point disc test with radius 14 around 15.5.
    for y in 0..32usize {
        for x in 0..32usize {
            let dx = x as f32 - 15.5;
            let dy = y as f32 - 15.5;
            let inside = dx * dx + dy * dy <= 14.0 * 14.0;
            let expected: u8 = if inside { 255 } else { 0 };
            assert_eq!(px(x, y), &[expected; 4]);
        }
    }
}
