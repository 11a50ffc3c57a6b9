//! Linux Bluetooth backend (BlueZ). Device enumeration, battery reading and
//! connection control are not wired to BlueZ yet: the backend answers with
//! empty or unknown state, and refuses noise control.

use vstd::prelude::*;

use super::BluetoothBackend;
use crate::airpods::{unknown_battery, AirPodsDevice, BatteryInfo, BluetoothAddress, NoiseControlMode};
use crate::error::{BridgeError, Platform};

verus! {

pub struct LinuxBluetoothBackend;

impl LinuxBluetoothBackend {
    pub fn new() -> (backend: Result<Self, BridgeError>)
        ensures
            backend is Ok,
    {
        Ok(Self)
    }
}

impl BluetoothBackend for LinuxBluetoothBackend {
    fn paired_devices(&self) -> (devices: Result<Vec<AirPodsDevice>, BridgeError>)
        ensures
            devices matches Ok(list) && list@.len() == 0,
    {
        Ok(Vec::new())
    }

    fn get_battery(&self, address: &BluetoothAddress) -> (info: Result<BatteryInfo, BridgeError>)
        ensures
            info matches Ok(b) && b == unknown_battery(),
    {
        Ok(BatteryInfo::unknown())
    }

    fn connect(&self, address: &BluetoothAddress) -> (r: Result<(), BridgeError>)
        ensures
            r is Ok,
    {
        Ok(())
    }

    fn disconnect(&self, address: &BluetoothAddress) -> (r: Result<(), BridgeError>)
        ensures
            r is Ok,
    {
        Ok(())
    }

    fn set_noise_control(&self, address: &BluetoothAddress, mode: NoiseControlMode) -> (r: Result<
        (),
        BridgeError,
    >)
        ensures
            r matches Err(BridgeError::NoiseControlUnavailable { platform, address: a })
                && platform == Platform::Linux && a == *address,
    {
        Err(BridgeError::NoiseControlUnavailable { platform: Platform::Linux, address: *address })
    }
}

} // verus!
