//! The AirPods data model: addresses, battery levels, noise modes, models and
//! devices.

pub mod aap;
pub mod models;

use vstd::prelude::*;

use crate::text::{decimal, hex_byte, push_decimal, push_hex_byte};

verus! {

/// Unique Bluetooth address for a device (the low 48 bits are significant).
#[derive(Debug, Clone, Copy, PartialEq, Eq, Hash, Structural)]
pub struct BluetoothAddress(pub u64);

/// The eight bytes of a number, most significant first.
pub open spec fn be_bytes(x: u64) -> Seq<u8> {
    vstd::bytes::spec_u64_to_le_bytes_open(x).reverse()
}

/// The colon-separated upper-case hexadecimal form of the low six bytes of an
/// address, most significant first ("AA:BB:CC:DD:EE:FF").
pub open spec fn address_text(address: BluetoothAddress) -> Seq<char> {
    let b = be_bytes(address.0);
    hex_byte(b[2]) + ":"@ + hex_byte(b[3]) + ":"@ + hex_byte(b[4]) + ":"@ + hex_byte(b[5]) + ":"@
        + hex_byte(b[6]) + ":"@ + hex_byte(b[7])
}

impl BluetoothAddress {
    /// The address as it is shown to the user.
    pub fn to_string(&self) -> (text: String)
        ensures
            text@ == address_text(*self),
    {
        let x = self.0;
        let mut s = String::new();
        push_hex_byte(&mut s, ((x >> 40) & 0xff) as u8);
        s.append(":");
        push_hex_byte(&mut s, ((x >> 32) & 0xff) as u8);
        s.append(":");
        push_hex_byte(&mut s, ((x >> 24) & 0xff) as u8);
        s.append(":");
        push_hex_byte(&mut s, ((x >> 16) & 0xff) as u8);
        s.append(":");
        push_hex_byte(&mut s, ((x >> 8) & 0xff) as u8);
        s.append(":");
        push_hex_byte(&mut s, (x & 0xff) as u8);
        s
    }
}

/// The text of every address is 17 characters long: six pairs of
/// hexadecimal digits separated by five colons.
pub proof fn lemma_address_text_len(address: BluetoothAddress)
    ensures
        address_text(address).len() == 17,
{
    reveal_strlit(":");
}

/// Battery level, 0–100. `None` means unknown/unavailable.
#[derive(Debug, Clone, Copy, PartialEq, Eq, Structural)]
pub struct BatteryLevel(pub Option<u8>);

/// A battery level as it is shown to the user: "40%", or "?" when unknown.
pub open spec fn battery_level_text(level: BatteryLevel) -> Seq<char> {
    match level.0 {
        Some(v) => decimal(v as nat) + "%"@,
        None => "?"@,
    }
}

impl BatteryLevel {
    /// The level as it is shown to the user.
    pub fn to_string(&self) -> (text: String)
        ensures
            text@ == battery_level_text(*self),
    {
        match self.0 {
            Some(v) => {
                let mut s = String::new();
                push_decimal(&mut s, v);
                s.append("%");
                s
            },
            None => String::from_str("?"),
        }
    }
}

/// Battery info for a device. AirPods Max has only `single`; AirPods 4 uses
/// `left`, `right`, and `case`.
#[derive(Debug, Clone, Copy, PartialEq, Eq, Structural)]
pub struct BatteryInfo {
    /// Left earbud (AirPods 4) or headphone (AirPods Max).
    pub left: BatteryLevel,
    /// Right earbud (AirPods 4). Not used for AirPods Max.
    pub right: BatteryLevel,
    /// Charging case (AirPods 4). Not used for AirPods Max.
    pub case: BatteryLevel,
    /// Whether the device is currently charging.
    pub is_charging: bool,
}

/// The battery state of a device about which nothing is known yet.
pub open spec fn unknown_battery() -> BatteryInfo {
    BatteryInfo {
        left: BatteryLevel(None),
        right: BatteryLevel(None),
        case: BatteryLevel(None),
        is_charging: false,
    }
}

impl BatteryInfo {
    pub fn unknown() -> (info: Self)
        ensures
            info == unknown_battery(),
    {
        Self {
            left: BatteryLevel(None),
            right: BatteryLevel(None),
            case: BatteryLevel(None),
            is_charging: false,
        }
    }
}

/// Noise control mode supported by ANC-capable AirPods.
#[derive(Debug, Clone, Copy, PartialEq, Eq, Structural)]
pub enum NoiseControlMode {
    Off,
    NoiseCancellation,
    Transparency,
    Adaptive,  // AirPods Pro 2 / AirPods 4 with ANC
}

/// A noise control mode as it is shown to the user.
pub open spec fn noise_mode_text(mode: NoiseControlMode) -> Seq<char> {
    match mode {
        NoiseControlMode::Off => "Off"@,
        NoiseControlMode::NoiseCancellation => "ANC"@,
        NoiseControlMode::Transparency => "Transparency"@,
        NoiseControlMode::Adaptive => "Adaptive"@,
    }
}

impl NoiseControlMode {
    /// The mode as it is shown to the user.
    pub fn to_string(&self) -> (text: String)
        ensures
            text@ == noise_mode_text(*self),
    {
        match self {
            Self::Off => String::from_str("Off"),
            Self::NoiseCancellation => String::from_str("ANC"),
            Self::Transparency => String::from_str("Transparency"),
            Self::Adaptive => String::from_str("Adaptive"),
        }
    }
}

/// Identifies which AirPods model this is — drives capability detection.
#[derive(Debug, Clone, Copy, PartialEq, Eq, Structural)]
pub enum AirPodsModel {
    AirPodsMax1,  // 1st gen, Lightning + USB-C variants
    AirPods4,  // with ANC
    AirPods4Basic,  // without ANC
    Unknown,
}

/// Models with active noise cancellation: AirPods Max and AirPods 4 (ANC).
pub open spec fn model_has_anc(model: AirPodsModel) -> bool {
    model is AirPodsMax1 || model is AirPods4
}

/// Models that report left, right and case batteries: both AirPods 4 variants.
pub open spec fn model_has_case_battery(model: AirPodsModel) -> bool {
    model is AirPods4 || model is AirPods4Basic
}

/// The name under which a model is shown to the user.
pub open spec fn model_display_name(model: AirPodsModel) -> Seq<char> {
    match model {
        AirPodsModel::AirPodsMax1 => "AirPods Max"@,
        AirPodsModel::AirPods4 => "AirPods 4 (ANC)"@,
        AirPodsModel::AirPods4Basic => "AirPods 4"@,
        AirPodsModel::Unknown => "Unknown AirPods"@,
    }
}

impl AirPodsModel {
    pub fn has_anc(&self) -> (r: bool)
        ensures
            r == model_has_anc(*self),
    {
        match self {
            Self::AirPodsMax1 | Self::AirPods4 => true,
            _ => false,
        }
    }

    pub fn has_case_battery(&self) -> (r: bool)
        ensures
            r == model_has_case_battery(*self),
    {
        match self {
            Self::AirPods4 | Self::AirPods4Basic => true,
            _ => false,
        }
    }

    pub fn display_name(&self) -> (name: &'static str)
        ensures
            name@ == model_display_name(*self),
    {
        match self {
            Self::AirPodsMax1 => "AirPods Max",
            Self::AirPods4 => "AirPods 4 (ANC)",
            Self::AirPods4Basic => "AirPods 4",
            Self::Unknown => "Unknown AirPods",
        }
    }
}

/// A discovered or paired AirPods device.
#[derive(Debug, Clone)]
pub struct AirPodsDevice {
    pub address: BluetoothAddress,
    pub name: String,
    pub model: AirPodsModel,
    pub battery: BatteryInfo,
    pub noise_mode: Option<NoiseControlMode>,
    pub is_connected: bool,
}

impl AirPodsDevice {
    /// A freshly seen device: battery unknown, no noise mode, not connected.
    pub fn new(address: BluetoothAddress, name: String, model: AirPodsModel) -> (device: Self)
        ensures
            device.address == address,
            device.name@ == name@,
            device.model == model,
            device.battery == unknown_battery(),
            device.noise_mode is None,
            !device.is_connected,
    {
        Self {
            address,
            name,
            model,
            battery: BatteryInfo::unknown(),
            noise_mode: None,
            is_connected: false,
        }
    }
}

} // verus!
