//! Shared tray-icon text used by both platform backends.

use vstd::prelude::*;

use crate::airpods::{
    battery_level_text, model_has_case_battery, AirPodsDevice, BatteryInfo,
};

verus! {

/// The mark appended to a battery label while the device charges.
pub open spec fn charging_mark(is_charging: bool) -> Seq<char> {
    if is_charging {
        " ⚡"@
    } else {
        Seq::empty()
    }
}

/// The battery part of a device's line: left, right and case levels for
/// models with a case, the single (left) level otherwise.
pub open spec fn battery_label_text(info: BatteryInfo, has_case: bool) -> Seq<char> {
    if has_case {
        "L:"@ + battery_level_text(info.left) + " R:"@ + battery_level_text(info.right) + " Case:"@
            + battery_level_text(info.case) + charging_mark(info.is_charging)
    } else {
        battery_level_text(info.left) + charging_mark(info.is_charging)
    }
}

/// The connection status part of a device's line.
pub open spec fn status_text(is_connected: bool) -> Seq<char> {
    if is_connected {
        "Connected"@
    } else {
        "Disconnected"@
    }
}

/// The menu line of one device: "name — battery [status]".
pub open spec fn device_line(device: AirPodsDevice) -> Seq<char> {
    device.name@ + " — "@ + battery_label_text(device.battery, model_has_case_battery(device.model))
        + " ["@ + status_text(device.is_connected) + "]"@
}

/// Lines joined with a newline between consecutive ones.
pub open spec fn joined_lines(lines: Seq<Seq<char>>) -> Seq<char>
    decreases lines.len(),
{
    if lines.len() == 0 {
        Seq::empty()
    } else if lines.len() == 1 {
        lines[0]
    } else {
        joined_lines(lines.drop_last()) + "\n"@ + lines.last()
    }
}

/// The tray tooltip for a list of devices.
pub open spec fn tooltip_text(devices: Seq<AirPodsDevice>) -> Seq<char> {
    if devices.len() == 0 {
        "PodBridge — no devices"@
    } else {
        "PodBridge\n"@ + joined_lines(devices.map_values(|d: AirPodsDevice| device_line(d)))
    }
}

/// For a model without a case battery the label shows the single (left)
/// level only: the right and case levels do not change it.
pub proof fn lemma_single_battery_label_ignores_right_and_case(a: BatteryInfo, b: BatteryInfo)
    requires
        a.left == b.left,
        a.is_charging == b.is_charging,
    ensures
        battery_label_text(a, false) == battery_label_text(b, false),
{
}

/// The tooltip of a single device is the header line followed by that
/// device's line.
pub proof fn lemma_tooltip_one_device(device: AirPodsDevice)
    ensures
        tooltip_text(seq![device]) == "PodBridge\n"@ + device_line(device),
{
    let lines = seq![device].map_values(|d: AirPodsDevice| device_line(d));
    assert(lines.len() == 1);
    assert(lines[0] == device_line(device));
}

/// Adding a device to a non-empty list extends the tooltip by a newline and
/// that device's line, and changes nothing before it.
pub proof fn lemma_tooltip_add_device(devices: Seq<AirPodsDevice>, device: AirPodsDevice)
    requires
        devices.len() >= 1,
    ensures
        tooltip_text(devices.push(device)) == tooltip_text(devices) + "\n"@ + device_line(device),
{
    let f = |d: AirPodsDevice| device_line(d);
    let all = devices.push(device).map_values(f);
    assert(all.drop_last() =~= devices.map_values(f));
    assert(all.last() == device_line(device));
    assert(all.len() >= 2);
}

/// Build the tray tooltip string shown on hover.
pub fn build_tooltip(devices: &[AirPodsDevice]) -> (tooltip: String)
    ensures
        tooltip@ == tooltip_text(devices@),
{
    if devices.len() == 0 {
        return String::from_str("PodBridge — no devices");
    }
    let ghost lines = devices@.map_values(|d: AirPodsDevice| device_line(d));
    let mut joined = String::new();
    let mut i: usize = 0;
    while i < devices.len()
        invariant
            i <= devices@.len(),
            lines == devices@.map_values(|d: AirPodsDevice| device_line(d)),
            joined@ == joined_lines(lines.take(i as int)),
        decreases devices@.len() - i,
    {
        let line = device_summary(&devices[i]);
        if i > 0 {
            joined.append("\n");
        }
        joined.append(line.as_str());
        proof {
            let next = lines.take(i + 1);
            assert(next.drop_last() =~= lines.take(i as int));
            assert(next.last() == lines[i as int]);
            if i == 0 {
                assert(lines.take(0) =~= Seq::<Seq<char>>::empty());
                assert(joined@ =~= joined_lines(next));
            }
        }
        i += 1;
    }
    assert(lines.take(devices@.len() as int) =~= lines);
    let mut tooltip = String::from_str("PodBridge\n");
    tooltip.append(joined.as_str());
    tooltip
}

/// Build the menu label for a single device.
pub fn device_summary(device: &AirPodsDevice) -> (summary: String)
    ensures
        summary@ == device_line(*device),
{
    let battery = battery_label(&device.battery, device.model.has_case_battery());
    let status = if device.is_connected {
        "Connected"
    } else {
        "Disconnected"
    };
    let mut s = device.name.clone();
    s.append(" — ");
    s.append(battery.as_str());
    s.append(" [");
    s.append(status);
    s.append("]");
    s
}

fn battery_label(info: &BatteryInfo, has_case: bool) -> (label: String)
    ensures
        label@ == battery_label_text(*info, has_case),
{
    let mut s = String::new();
    if has_case {
        s.append("L:");
        s.append(info.left.to_string().as_str());
        s.append(" R:");
        s.append(info.right.to_string().as_str());
        s.append(" Case:");
        s.append(info.case.to_string().as_str());
    } else {
        s.append(info.left.to_string().as_str());
    }
    if info.is_charging {
        s.append(" ⚡");
    }
    s
}

} // verus!
