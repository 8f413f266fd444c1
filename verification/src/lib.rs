//! Host-side core of the AXIS USB bulk device: endpoint resolution, the
//! interface claim sequence, the register and bulk protocols, and the
//! decoders for the device's debug streams.
//!
//! Nothing here touches a USB stack. Every function works on plain values:
//! the caller reads the descriptors and performs the transfers, and hands the
//! results in.

pub mod axis_usb;
pub mod common;
pub mod descriptor;
pub mod read_logger;
pub mod telemetry;
pub mod text;

pub use axis_usb::{
    AxisUSB, BulkIn, BulkOut, ControlIn, ControlOut, RECEIVE_STATUS_REGISTER, TELEMETRY_ADDRESS,
    TRANSFER_LENGTH_REGISTER, TRANSMIT_STATUS_REGISTER,
};
pub use common::{
    configuration_to_read, configure_endpoint, configure_endpoints, find_axis_usb, find_endpoint,
    find_interfaces, judge, Action, Endpoint, Error, TartResult, Verdict, DEFAULT_TIMEOUT,
    MAX_BUF_SIZE, PRODUCT_ID, VENDOR_ID,
};
pub use descriptor::{
    ConfigDescriptor, Device, DeviceDescriptor, Direction, EndpointDescriptor, Interface,
    InterfaceDescriptor, TransferType,
};
pub use read_logger::{decode_compact, decode_verbose, tart_logger};
pub use telemetry::{decode_trace, drain_telemetry, tart_telemetry, to_hexdump, Report};
