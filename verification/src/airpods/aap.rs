//! Partial implementation of Apple's AAP (Apple Audio Protocol) over L2CAP.
//!
//! Reference: https://github.com/JackHMcD/AAP-Protocol-Definition
//! PSM used by AAP: 0x1001

use vstd::prelude::*;

use crate::airpods::{BatteryInfo, BatteryLevel, NoiseControlMode};
use crate::error::BridgeError;

verus! {

pub const AAP_L2CAP_PSM: u16 = 0x1001;

/// Packet type byte (first byte of every AAP message).
#[derive(Debug, Clone, Copy, PartialEq, Eq, Structural)]
pub enum PacketType {
    /// 0x00 — handshake / connection init
    Handshake,
    /// 0x04 — device info response (includes battery)
    DeviceInfo,
    /// 0x09 — noise control command / status
    NoiseControl,
}

impl PacketType {
    /// The byte that opens a packet of this type.
    pub open spec fn spec_byte(self) -> u8 {
        match self {
            PacketType::Handshake => 0x00,
            PacketType::DeviceInfo => 0x04,
            PacketType::NoiseControl => 0x09,
        }
    }

    pub fn byte(&self) -> (b: u8)
        ensures
            b == self.spec_byte(),
    {
        match self {
            PacketType::Handshake => 0x00,
            PacketType::DeviceInfo => 0x04,
            PacketType::NoiseControl => 0x09,
        }
    }
}

/// A raw battery byte: 0–10 stands for 0–100 %, anything else (0xFF in
/// particular) for "unavailable".
pub open spec fn decoded_battery(raw: u8) -> Option<u8> {
    if raw <= 10 {
        Some((raw * 10) as u8)
    } else {
        None
    }
}

/// What a DeviceInfo packet says of the batteries, or `None` when `data` is
/// not a DeviceInfo packet of at least six bytes.
///
/// Byte layout: `[0]` packet type (0x04), `[1]` flags, `[2]` left, `[3]` right,
/// `[4]` case, `[5]` status flags (bit 0 = charging).
pub open spec fn battery_packet_info(data: Seq<u8>) -> Option<BatteryInfo> {
    if data.len() >= 6 && data[0] == PacketType::DeviceInfo.spec_byte() {
        Some(
            BatteryInfo {
                left: BatteryLevel(decoded_battery(data[2])),
                right: BatteryLevel(decoded_battery(data[3])),
                case: BatteryLevel(decoded_battery(data[4])),
                is_charging: data[5] % 2 == 1,
            },
        )
    } else {
        None
    }
}

/// The byte that stands for a noise control mode in AAP packets.
pub open spec fn noise_mode_byte(mode: NoiseControlMode) -> u8 {
    match mode {
        NoiseControlMode::Off => 0x01,
        NoiseControlMode::NoiseCancellation => 0x02,
        NoiseControlMode::Transparency => 0x03,
        NoiseControlMode::Adaptive => 0x04,
    }
}

/// The noise control mode a byte stands for, if any.
pub open spec fn noise_mode_of_byte(b: u8) -> Option<NoiseControlMode> {
    if b == 0x01 {
        Some(NoiseControlMode::Off)
    } else if b == 0x02 {
        Some(NoiseControlMode::NoiseCancellation)
    } else if b == 0x03 {
        Some(NoiseControlMode::Transparency)
    } else if b == 0x04 {
        Some(NoiseControlMode::Adaptive)
    } else {
        None
    }
}

/// What a noise-control status packet reports.
pub open spec fn noise_control_packet_mode(data: Seq<u8>) -> Option<NoiseControlMode> {
    if data.len() >= 2 && data[0] == PacketType::NoiseControl.spec_byte() {
        noise_mode_of_byte(data[1])
    } else {
        None
    }
}

/// The packet that sets a noise control mode.
pub open spec fn set_noise_control_packet(mode: NoiseControlMode) -> Seq<u8> {
    seq![PacketType::NoiseControl.spec_byte(), noise_mode_byte(mode)]
}

/// The packet that requests the current device info.
pub open spec fn device_info_request_packet() -> Seq<u8> {
    seq![PacketType::Handshake.spec_byte(), 0x00, 0x01, 0x00]
}

/// Parse a raw AAP packet and extract battery information.
///
/// Returns `None` if the packet is not a DeviceInfo packet or is malformed.
pub fn parse_battery_packet(data: &[u8]) -> (info: Option<BatteryInfo>)
    ensures
        info == battery_packet_info(data@),
{
    if data.len() < 6 {
        return None;
    }
    if data[0] != PacketType::DeviceInfo.byte() {
        return None;
    }
    let left = decode_battery(data[2]);
    let right = decode_battery(data[3]);
    let case = decode_battery(data[4]);
    let status = data[5];
    let is_charging = status & 0x01 != 0;
    assert(is_charging == (status % 2 == 1)) by (bit_vector)
        requires
            is_charging == (status & 0x01 != 0),
    ;
    Some(BatteryInfo { left, right, case, is_charging })
}

fn decode_battery(raw: u8) -> (level: BatteryLevel)
    ensures
        level.0 == decoded_battery(raw),
{
    // Values 0–10 map to 0–100%; 0xFF means unavailable.
    if raw == 0xFF || raw > 10 {
        BatteryLevel(None)
    } else {
        BatteryLevel(Some(raw * 10))
    }
}

/// Parse an AAP noise-control status packet.
pub fn parse_noise_control_packet(data: &[u8]) -> (mode: Option<NoiseControlMode>)
    ensures
        mode == noise_control_packet_mode(data@),
{
    if data.len() < 2 || data[0] != PacketType::NoiseControl.byte() {
        return None;
    }
    match data[1] {
        0x01 => Some(NoiseControlMode::Off),
        0x02 => Some(NoiseControlMode::NoiseCancellation),
        0x03 => Some(NoiseControlMode::Transparency),
        0x04 => Some(NoiseControlMode::Adaptive),
        _ => None,
    }
}

/// Build an AAP command that requests the current device info.
pub fn build_device_info_request() -> (packet: Vec<u8>)
    ensures
        packet@ == device_info_request_packet(),
{
    // Minimal handshake / info-request packet, after the community docs.
    vec![PacketType::Handshake.byte(), 0x00, 0x01, 0x00]
}

/// Build an AAP command to set noise control mode. It always succeeds.
pub fn build_set_noise_control(mode: NoiseControlMode) -> (packet: Result<Vec<u8>, BridgeError>)
    ensures
        packet matches Ok(bytes) && bytes@ == set_noise_control_packet(mode),
{
    let mode_byte: u8 = match mode {
        NoiseControlMode::Off => 0x01,
        NoiseControlMode::NoiseCancellation => 0x02,
        NoiseControlMode::Transparency => 0x03,
        NoiseControlMode::Adaptive => 0x04,
    };
    Ok(vec![PacketType::NoiseControl.byte(), mode_byte])
}

/// Parsing the packet that sets a mode gives that mode back.
pub proof fn lemma_set_noise_control_round_trip(mode: NoiseControlMode)
    ensures
        noise_control_packet_mode(set_noise_control_packet(mode)) == Some(mode),
{
}

/// A noise-control status packet is, in its first two bytes, the packet that
/// sets the mode it reports.
pub proof fn lemma_noise_control_packet_rebuilt(data: Seq<u8>, mode: NoiseControlMode)
    requires
        noise_control_packet_mode(data) == Some(mode),
    ensures
        set_noise_control_packet(mode) == data.take(2),
{
    assert(set_noise_control_packet(mode) =~= data.take(2));
}

/// No packet is both a noise-control status packet and a DeviceInfo packet:
/// the two parsers never both accept the same bytes.
pub proof fn lemma_packet_kinds_exclusive(data: Seq<u8>)
    ensures
        !(noise_control_packet_mode(data) is Some && battery_packet_info(data) is Some),
{
}

/// How a DeviceInfo packet is read: a packet of at least six bytes that opens
/// with 0x04 is accepted, and each of its battery bytes 2, 3 and 4 reports ten
/// times its value when that value is at most 10 and "unavailable" otherwise;
/// bit 0 of byte 5 is the charging flag. Any other input is rejected.
pub proof fn lemma_battery_packet_reading(data: Seq<u8>)
    ensures
        (data.len() < 6 || data[0] != 0x04) ==> battery_packet_info(data) is None,
        (data.len() >= 6 && data[0] == 0x04) ==> {
            &&& battery_packet_info(data) matches Some(info)
            &&& (data[2] <= 10 ==> info.left.0 == Some((10 * data[2]) as u8))
            &&& (data[2] > 10 ==> info.left.0 is None)
            &&& (data[3] <= 10 ==> info.right.0 == Some((10 * data[3]) as u8))
            &&& (data[3] > 10 ==> info.right.0 is None)
            &&& (data[4] <= 10 ==> info.case.0 == Some((10 * data[4]) as u8))
            &&& (data[4] > 10 ==> info.case.0 is None)
            &&& info.is_charging == (data[5] % 2 == 1)
        },
{
}

/// Every battery level a DeviceInfo packet reports is a multiple of ten
/// between 0 and 100.
pub proof fn lemma_battery_levels_in_range(data: Seq<u8>)
    requires
        battery_packet_info(data) is Some,
    ensures
        ({
            let info = battery_packet_info(data)->Some_0;
            forall|level: BatteryLevel|
                #![trigger level.0]
                (level == info.left || level == info.right || level == info.case) ==> (
                level.0 matches Some(v) ==> v <= 100 && v % 10 == 0)
        }),
{
}

} // verus!
