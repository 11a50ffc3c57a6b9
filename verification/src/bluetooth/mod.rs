//! Platform-independent Bluetooth operations and the decisions the platform
//! backends share.

pub mod discovery;
pub mod linux;
pub mod scanner;

use vstd::prelude::*;

use crate::airpods::{AirPodsDevice, BatteryInfo, BluetoothAddress, NoiseControlMode};
use crate::error::BridgeError;

verus! {

/// Platform-independent Bluetooth operations.
///
/// Each platform provides one concrete implementation.
pub trait BluetoothBackend: Send + Sync {
    /// Return all currently paired/connected AirPods devices.
    fn paired_devices(&self) -> Result<Vec<AirPodsDevice>, BridgeError>;

    /// Refresh battery info for a specific device. Returns the updated info.
    fn get_battery(&self, address: &BluetoothAddress) -> Result<BatteryInfo, BridgeError>;

    /// Connect to a device (make it the active audio output).
    fn connect(&self, address: &BluetoothAddress) -> Result<(), BridgeError>;

    /// Disconnect a device.
    fn disconnect(&self, address: &BluetoothAddress) -> Result<(), BridgeError>;

    /// Set noise control mode. Returns `Err` if the device doesn't support ANC
    /// or if the AAP command fails.
    fn set_noise_control(&self, address: &BluetoothAddress, mode: NoiseControlMode) -> Result<
        (),
        BridgeError,
    >;
}

} // verus!
