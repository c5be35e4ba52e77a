//! Decoding logic of a gameport joystick and throttle that report to the host as a USB HID
//! device: hat switches, the scans of the two button matrices and the HID input report.

pub mod dpad;
pub mod joystick_button_matrix;
pub mod scan;
pub mod throttle_button_matrix;
pub mod hid;
