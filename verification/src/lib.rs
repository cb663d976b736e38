//! Host-side access to USB devices over their bulk endpoints: enumerating
//! attached devices with their descriptors, opening a device by
//! vendor/product identifier, negotiating its bulk-transfer endpoints, and
//! performing blocking bulk reads and writes with timeouts.
//!
//! The USB protocol stack itself is an outside library; this crate
//! orchestrates it and verifies the orchestration: descriptor mapping,
//! endpoint resolution, device selection, and the error taxonomy.

pub mod backend;
pub mod capabilities;
pub mod descriptor;
pub mod endpoints;
pub mod enumerate;
pub mod errors;
pub mod session;

pub use capabilities::capabilities;
pub use capabilities::Capabilities;
pub use descriptor::DeviceDescriptor;
pub use descriptor::DeviceSummary;
pub use descriptor::RawDeviceDescriptor;
pub use enumerate::list_devices;
pub use errors::transfer_error;
pub use errors::BackendErrorKind;
pub use errors::UsbError;
pub use session::open_session;
pub use session::write_once;
pub use session::DeviceResource;
