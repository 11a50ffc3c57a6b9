//! Errors reported by the Bluetooth and UI layers.

use vstd::prelude::*;

use crate::airpods::{address_text, BluetoothAddress};

verus! {

/// The platform a backend runs on.
#[derive(Debug, Clone, Copy, PartialEq, Eq, Structural)]
pub enum Platform {
    Linux,
    Windows,
}

/// Errors of the Bluetooth and UI layers.
#[derive(Debug)]
pub enum BridgeError {
    /// The backend cannot control noise modes (yet).
    NoiseControlUnavailable { platform: Platform, address: BluetoothAddress },
    /// No backend exists for the platform the program runs on.
    UnsupportedPlatform,
    /// A failure reported by the operating system's Bluetooth or UI API.
    Os(String),
}

/// The name of a platform as messages write it.
pub open spec fn platform_name(platform: Platform) -> Seq<char> {
    match platform {
        Platform::Linux => "Linux"@,
        Platform::Windows => "Windows"@,
    }
}

/// The message of an error.
pub open spec fn error_text(error: BridgeError) -> Seq<char> {
    match error {
        BridgeError::NoiseControlUnavailable { platform, address } => "ANC control not yet implemented on "@
            + platform_name(platform) + " (address: "@ + address_text(address) + ")"@,
        BridgeError::UnsupportedPlatform => "Unsupported platform"@,
        BridgeError::Os(message) => message@,
    }
}

impl BridgeError {
    /// The message of the error, as it is logged.
    pub fn to_string(&self) -> (text: String)
        ensures
            text@ == error_text(*self),
    {
        match self {
            BridgeError::NoiseControlUnavailable { platform, address } => {
                let mut s = String::from_str("ANC control not yet implemented on ");
                match platform {
                    Platform::Linux => s.append("Linux"),
                    Platform::Windows => s.append("Windows"),
                }
                s.append(" (address: ");
                s.append(address.to_string().as_str());
                s.append(")");
                s
            },
            BridgeError::UnsupportedPlatform => String::from_str("Unsupported platform"),
            BridgeError::Os(message) => message.clone(),
        }
    }
}

} // verus!
