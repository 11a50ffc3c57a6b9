//! The user interface layer: the events it reports, the interface every
//! platform tray implements, and the text and image it shows.

pub mod icon;
pub mod tray;

use vstd::prelude::*;

use crate::airpods::{AirPodsDevice, NoiseControlMode};
use crate::error::BridgeError;

verus! {

/// Events the UI layer emits back to the application logic.
#[derive(Debug)]
pub enum UiEvent {
    ConnectDevice { address: u64 },
    DisconnectDevice { address: u64 },
    SetNoiseMode { address: u64, mode: NoiseControlMode },
    Quit,
}

/// Platform-independent UI interface.
/// The tray is not `Send` (GUI must stay on the main thread), so this trait
/// does not require `Send`. Keep UI on the main thread.
pub trait UiBackend {
    /// Update the tray icon/menu with current device state.
    fn update_devices(&mut self, devices: &[AirPodsDevice]) -> Result<(), BridgeError>;

    /// Show a brief notification (battery low, connection change, etc.).
    fn show_notification(&self, title: &str, body: &str) -> Result<(), BridgeError>;

    /// Process pending UI events; returns any events triggered since last call.
    /// Non-blocking — returns immediately if nothing pending.
    fn poll_events(&mut self) -> Vec<UiEvent>;
}

} // verus!
