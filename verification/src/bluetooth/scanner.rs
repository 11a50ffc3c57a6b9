//! Model detection from BLE advertisements.

use vstd::prelude::*;

use crate::airpods::models::{continuity_model, model_from_continuity};
use crate::airpods::{model_display_name, unknown_battery, AirPodsDevice, AirPodsModel, BluetoothAddress};

verus! {

/// Minimal BLE advertisement data needed for model detection.
pub struct AdvertisementData {
    pub address: BluetoothAddress,
    pub name: Option<String>,
    /// Raw manufacturer-specific data payload (excludes the 2-byte company ID).
    pub manufacturer_data: Option<Vec<u8>>,
}

/// The AirPods model an advertisement announces, if it announces one.
///
/// The payload starts `[device_type, model_id_hi, model_id_lo, ...]`.
pub open spec fn advertised_model(manufacturer_data: Option<Seq<u8>>) -> Option<AirPodsModel> {
    match manufacturer_data {
        Some(data) => if data.len() < 3 {
            None
        } else {
            let model = continuity_model(data[0], (data[1] * 256 + data[2]) as u16);
            if model is Unknown {
                None
            } else {
                Some(model)
            }
        },
        None => None,
    }
}

/// The manufacturer data of an advertisement, as a byte sequence.
pub open spec fn manufacturer_bytes(adv: &AdvertisementData) -> Option<Seq<u8>> {
    match adv.manufacturer_data {
        Some(v) => Some(v@),
        None => None,
    }
}

/// Try to identify an AirPods device from a BLE advertisement.
///
/// Returns `None` if the advertisement is not from an AirPods device. A device
/// that is found carries the advertised name, or the model's display name when
/// the advertisement has none.
pub fn identify_from_advertisement(adv: &AdvertisementData) -> (device: Option<AirPodsDevice>)
    ensures
        device is Some <==> advertised_model(manufacturer_bytes(adv)) is Some,
        device matches Some(d) ==> {
            &&& Some(d.model) == advertised_model(manufacturer_bytes(adv))
            &&& d.address == adv.address
            &&& d.name@ == match adv.name {
                Some(n) => n@,
                None => model_display_name(d.model),
            }
            &&& d.battery == unknown_battery()
            &&& d.noise_mode is None
            &&& !d.is_connected
        },
{
    let data = match &adv.manufacturer_data {
        Some(d) => d,
        None => return None,
    };

    // Apple continuity payload with the 2-byte company ID already stripped:
    // data[0] = device_type, data[1..3] = model_id (big-endian).
    if data.len() < 3 {
        return None;
    }

    let device_type = data[0];
    let model_id: u16 = (data[1] as u16) * 256 + (data[2] as u16);
    let model = model_from_continuity(device_type, model_id);

    if model == AirPodsModel::Unknown {
        return None;
    }

    let name = match &adv.name {
        Some(n) => n.clone(),
        None => String::from_str(model.display_name()),
    };
    Some(AirPodsDevice::new(adv.address, name, model))
}

/// The model an advertisement announces is read from its first three bytes
/// alone: the device type, then the big-endian model id.
pub proof fn lemma_advertised_model_reads_first_three_bytes(a: Seq<u8>, b: Seq<u8>)
    requires
        a.len() >= 3,
        b.len() >= 3,
        a[0] == b[0],
        a[1] == b[1],
        a[2] == b[2],
    ensures
        advertised_model(Some(a)) == advertised_model(Some(b)),
{
}

/// Which payloads announce which models: device type 0x0A is AirPods Max
/// whatever follows; device type 0x07 with model id 0x2024 is AirPods 4 (ANC)
/// and with 0x2025 AirPods 4; payloads under three bytes, or with no
/// manufacturer data, announce nothing.
pub proof fn lemma_advertised_models(data: Seq<u8>)
    ensures
        data.len() < 3 ==> advertised_model(Some(data)) is None,
        advertised_model(None) is None,
        (data.len() >= 3 && data[0] == 0x0A) ==> advertised_model(Some(data)) == Some(
            AirPodsModel::AirPodsMax1,
        ),
        (data.len() >= 3 && data[0] == 0x07 && data[1] == 0x20 && data[2] == 0x24)
            ==> advertised_model(Some(data)) == Some(AirPodsModel::AirPods4),
        (data.len() >= 3 && data[0] == 0x07 && data[1] == 0x20 && data[2] == 0x25)
            ==> advertised_model(Some(data)) == Some(AirPodsModel::AirPods4Basic),
        (data.len() >= 3 && data[0] != 0x0A && data[0] != 0x07) ==> advertised_model(Some(data)) is None,
        (data.len() >= 3 && data[0] == 0x07 && !(data[1] == 0x20 && (data[2] == 0x24 || data[2] == 0x25)))
            ==> advertised_model(Some(data)) is None,
{
}

/// An advertisement never identifies a device of unknown model.
pub proof fn lemma_identified_model_is_known(manufacturer_data: Option<Seq<u8>>)
    ensures
        advertised_model(manufacturer_data) matches Some(model) ==> !(model is Unknown),
{
}

} // verus!
