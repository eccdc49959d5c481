//! Bridges a Nintendo Switch 2 controller's raw input protocol to a virtual
//! X-Input style controller.
//!
//! The verified core covers the USB transport handshake (as a state machine
//! whose I/O actions a caller performs), the virtual device's fixed capability
//! layout, and the event-translation rules with their normalization and
//! mapping tables. Callers perform the actual device I/O and feed results
//! back as events.

pub mod nintendo_serial_device_details;
pub mod procon2_device_manager;
pub mod runtime_error;
pub mod usb_pipe;
pub mod xinput_proxy;
pub mod xinput_serial_device_details;
pub mod xinput_virtual_device_builder;
