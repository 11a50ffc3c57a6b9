//! Decisions of the advertisement-watching backend: which paired devices are
//! AirPods, which model a device name stands for, which manufacturer sections
//! are Apple Proximity Pairing candidates, and the battery states observed per
//! Bluetooth address.

use vstd::prelude::*;

use std::collections::HashMap;

use crate::airpods::models::APPLE_COMPANY_ID;
use crate::airpods::{unknown_battery, AirPodsDevice, AirPodsModel, BatteryInfo, BluetoothAddress};
use crate::text::{chars_of, contains_text, lowercase, text_contains, to_lowercase};

verus! {

broadcast use vstd::std_specs::hash::group_hash_axioms;

/// Whether a lower-cased device name names AirPods.
pub open spec fn lower_name_is_airpods(lower: Seq<char>) -> bool {
    contains_text(lower, "airpods"@) || contains_text(lower, "air pods"@)
}

/// The model a lower-cased device name stands for.
pub open spec fn lower_name_model(lower: Seq<char>) -> AirPodsModel {
    if contains_text(lower, "max"@) {
        AirPodsModel::AirPodsMax1
    } else if contains_text(lower, "airpods 4"@) || contains_text(lower, "airpods4"@) {
        AirPodsModel::AirPods4
    } else {
        AirPodsModel::Unknown
    }
}

/// A lower-cased name looks like AirPods exactly when "airpods" or "air pods"
/// occurs in it somewhere, whatever else the name holds.
pub proof fn lemma_airpods_names(lower: Seq<char>, i: int)
    ensures
        (0 <= i && i + 7 <= lower.len() && lower.subrange(i, i + 7) == "airpods"@)
            ==> lower_name_is_airpods(lower),
        (0 <= i && i + 8 <= lower.len() && lower.subrange(i, i + 8) == "air pods"@)
            ==> lower_name_is_airpods(lower),
        lower_name_is_airpods(lower) ==> (exists|j: int|
            0 <= j && j + 7 <= lower.len() && #[trigger] lower.subrange(j, j + 7) == "airpods"@) || (
        exists|j: int|
            0 <= j && j + 8 <= lower.len() && #[trigger] lower.subrange(j, j + 8) == "air pods"@),
{
    reveal_strlit("airpods");
    reveal_strlit("air pods");
    if 0 <= i && i + 7 <= lower.len() && lower.subrange(i, i + 7) == "airpods"@ {
        assert(lower.subrange(i, i + "airpods"@.len()) == "airpods"@);
    }
    if 0 <= i && i + 8 <= lower.len() && lower.subrange(i, i + 8) == "air pods"@ {
        assert(lower.subrange(i, i + "air pods"@.len()) == "air pods"@);
    }
}

/// Text around a name that looks like AirPods does not change that: a name
/// that looks like AirPods still does with anything put before or after it.
pub proof fn lemma_airpods_name_extended(before: Seq<char>, lower: Seq<char>, after: Seq<char>)
    requires
        lower_name_is_airpods(lower),
    ensures
        lower_name_is_airpods(before + lower + after),
{
    let whole = before + lower + after;
    if contains_text(lower, "airpods"@) {
        let i = choose|i: int|
            0 <= i && i + "airpods"@.len() <= lower.len() && #[trigger] lower.subrange(
                i,
                i + "airpods"@.len(),
            ) == "airpods"@;
        let j = before.len() + i;
        assert(whole.subrange(j, j + "airpods"@.len()) =~= lower.subrange(i, i + "airpods"@.len()));
    } else {
        let i = choose|i: int|
            0 <= i && i + "air pods"@.len() <= lower.len() && #[trigger] lower.subrange(
                i,
                i + "air pods"@.len(),
            ) == "air pods"@;
        let j = before.len() + i;
        assert(whole.subrange(j, j + "air pods"@.len()) =~= lower.subrange(i, i + "air pods"@.len()));
    }
}

/// Whether an already lower-cased device name names AirPods.
pub fn lower_name_looks_like_airpods(lower: &str) -> (r: bool)
    ensures
        r == lower_name_is_airpods(lower@),
{
    let text = chars_of(lower);
    text_contains(&text, &chars_of("airpods")) || text_contains(&text, &chars_of("air pods"))
}

/// The model an already lower-cased device name stands for.
pub fn model_from_lower_name(lower: &str) -> (model: AirPodsModel)
    ensures
        model == lower_name_model(lower@),
{
    let text = chars_of(lower);
    if text_contains(&text, &chars_of("max")) {
        AirPodsModel::AirPodsMax1
    } else if text_contains(&text, &chars_of("airpods 4")) || text_contains(
        &text,
        &chars_of("airpods4"),
    ) {
        AirPodsModel::AirPods4
    } else {
        AirPodsModel::Unknown
    }
}

/// Whether a paired device's name names AirPods, in any letter case.
pub fn looks_like_airpods(name: &str) -> (r: bool)
    ensures
        r == lower_name_is_airpods(lowercase(name@)),
{
    let lower = to_lowercase(name);
    lower_name_looks_like_airpods(lower.as_str())
}

/// The model a paired device's name stands for, in any letter case.
pub fn model_from_name(name: &str) -> (model: AirPodsModel)
    ensures
        model == lower_name_model(lowercase(name@)),
{
    let lower = to_lowercase(name);
    model_from_lower_name(lower.as_str())
}

/// Whether a manufacturer data section of a BLE advertisement is a candidate
/// Apple Proximity Pairing payload: Apple's company ID and at least 8 bytes.
pub fn is_proximity_pairing_candidate(company_id: u16, data_len: usize) -> (r: bool)
    ensures
        r == (company_id == APPLE_COMPANY_ID && data_len >= 8),
{
    company_id == APPLE_COMPANY_ID && data_len >= 8
}

/// The battery state a cache holds for an address: the last one recorded, or
/// the unknown state when none was.
pub open spec fn cached_battery(entries: Map<u64, BatteryInfo>, address: u64) -> BatteryInfo {
    if entries.contains_key(address) {
        entries[address]
    } else {
        unknown_battery()
    }
}

/// Battery info observed from BLE advertisements, keyed by Bluetooth address.
pub struct BatteryCache {
    entries: HashMap<u64, BatteryInfo>,
}

impl View for BatteryCache {
    type V = Map<u64, BatteryInfo>;

    closed spec fn view(&self) -> Map<u64, BatteryInfo> {
        self.entries@
    }
}

impl BatteryCache {
    /// An empty cache.
    pub fn new() -> (cache: Self)
        ensures
            cache@ == Map::<u64, BatteryInfo>::empty(),
    {
        BatteryCache { entries: HashMap::new() }
    }

    /// Records the battery state last observed for an address.
    pub fn record(&mut self, address: u64, battery: BatteryInfo)
        ensures
            final(self)@ == old(self)@.insert(address, battery),
    {
        self.entries.insert(address, battery);
    }

    /// The battery state last observed for an address, if any.
    pub fn lookup(&self, address: u64) -> (battery: Option<BatteryInfo>)
        ensures
            battery == (if self@.contains_key(address) {
                Some(self@[address])
            } else {
                None
            }),
    {
        match self.entries.get(&address) {
            Some(b) => Some(*b),
            None => None,
        }
    }

    /// The battery state for an address: the last one observed, or unknown.
    pub fn battery_for(&self, address: &BluetoothAddress) -> (battery: BatteryInfo)
        ensures
            battery == cached_battery(self@, address.0),
    {
        match self.lookup(address.0) {
            Some(b) => b,
            None => BatteryInfo::unknown(),
        }
    }
}

/// The device a paired Bluetooth device becomes once its name is known to
/// name AirPods: the model is read from the name, and the battery state is
/// the one last observed for its address.
pub fn paired_device(name: String, address: u64, connected: bool, cache: &BatteryCache) -> (device:
    AirPodsDevice)
    ensures
        device.address == BluetoothAddress(address),
        device.name@ == name@,
        device.model == lower_name_model(lowercase(name@)),
        device.battery == cached_battery(cache@, address),
        device.noise_mode is None,
        device.is_connected == connected,
{
    let model = model_from_name(name.as_str());
    let mut device = AirPodsDevice::new(BluetoothAddress(address), name, model);
    device.is_connected = connected;
    // Enrich with BLE-observed battery data if available.
    if let Some(battery) = cache.lookup(address) {
        device.battery = battery;
    }
    device
}

/// A battery state recorded for an address is the one read back for it.
pub proof fn lemma_cache_read_after_write(entries: Map<u64, BatteryInfo>, address: u64, battery: BatteryInfo)
    ensures
        cached_battery(entries.insert(address, battery), address) == battery,
{
}

/// Recording a battery state for one address leaves every other address as it
/// was.
pub proof fn lemma_cache_write_keeps_others(
    entries: Map<u64, BatteryInfo>,
    address: u64,
    battery: BatteryInfo,
    other: u64,
)
    requires
        other != address,
    ensures
        cached_battery(entries.insert(address, battery), other) == cached_battery(entries, other),
{
}

/// An address for which nothing was recorded reads back as unknown.
pub proof fn lemma_cache_empty_is_unknown(address: u64)
    ensures
        cached_battery(Map::<u64, BatteryInfo>::empty(), address) == unknown_battery(),
{
}

} // verus!
