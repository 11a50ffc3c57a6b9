//! PodBridge core: the AirPods data model, the AAP packet codec, BLE
//! advertisement decoding and the text shown in the system tray.

pub mod airpods;
pub mod bluetooth;
pub mod error;
pub mod ui;
pub mod text;
