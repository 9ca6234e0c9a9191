//! The controller's error type and the device values that the GUI shows.

use vstd::prelude::*;
use vstd::string::*;

use crate::text::join2;

verus! {

/// Errors of the controller, each with a message.
#[derive(Debug, Clone)]
pub enum LumidoxError {
    /// A device operation failed.
    DeviceError(String),
    /// Communication with the device failed.
    CommunicationError(String),
    /// A value failed validation.
    ValidationError(String),
    /// A system-level failure.
    SystemError(String),
    /// A configuration problem.
    ConfigError(String),
    /// An input out of its accepted range or form.
    InvalidInput(String),
    /// The state is inconsistent.
    InvalidState(String),
    /// An operation needs a connected device.
    DeviceNotConnected(String),
    /// The device is busy.
    DeviceBusy(String),
}

impl LumidoxError {
    /// The message that the error carries.
    pub open spec fn message(&self) -> Seq<char> {
        match self {
            LumidoxError::DeviceError(m) => m@,
            LumidoxError::CommunicationError(m) => m@,
            LumidoxError::ValidationError(m) => m@,
            LumidoxError::SystemError(m) => m@,
            LumidoxError::ConfigError(m) => m@,
            LumidoxError::InvalidInput(m) => m@,
            LumidoxError::InvalidState(m) => m@,
            LumidoxError::DeviceNotConnected(m) => m@,
            LumidoxError::DeviceBusy(m) => m@,
        }
    }

    /// The label that the error's text starts with.
    pub open spec fn label(&self) -> Seq<char> {
        match self {
            LumidoxError::DeviceError(_) => "Device error: "@,
            LumidoxError::CommunicationError(_) => "Communication error: "@,
            LumidoxError::ValidationError(_) => "Validation error: "@,
            LumidoxError::SystemError(_) => "System error: "@,
            LumidoxError::ConfigError(_) => "Configuration error: "@,
            LumidoxError::InvalidInput(_) => "Invalid input: "@,
            LumidoxError::InvalidState(_) => "Invalid state: "@,
            LumidoxError::DeviceNotConnected(_) => "Device not connected: "@,
            LumidoxError::DeviceBusy(_) => "Device busy: "@,
        }
    }

    /// The text the error is shown with: its label, then its message.
    pub open spec fn text(&self) -> Seq<char> {
        self.label() + self.message()
    }

    /// The text the error is shown with.
    pub fn to_display_string(&self) -> (s: String)
        ensures
            s@ == self.text(),
    {
        match self {
            LumidoxError::DeviceError(m) => join2("Device error: ", m.as_str()),
            LumidoxError::CommunicationError(m) => join2("Communication error: ", m.as_str()),
            LumidoxError::ValidationError(m) => join2("Validation error: ", m.as_str()),
            LumidoxError::SystemError(m) => join2("System error: ", m.as_str()),
            LumidoxError::ConfigError(m) => join2("Configuration error: ", m.as_str()),
            LumidoxError::InvalidInput(m) => join2("Invalid input: ", m.as_str()),
            LumidoxError::InvalidState(m) => join2("Invalid state: ", m.as_str()),
            LumidoxError::DeviceNotConnected(m) => join2("Device not connected: ", m.as_str()),
            LumidoxError::DeviceBusy(m) => join2("Device busy: ", m.as_str()),
        }
    }
}

/// The operating mode the device reports.
#[derive(Debug, Clone, Copy, PartialEq, Eq, Structural)]
pub enum DeviceMode {
    /// Local (front panel) control.
    Local,
    /// Remote control, output off.
    Standby,
    /// Remote control, armed.
    Armed,
    /// Remote control, firing.
    Remote,
}

/// Identification of a connected device.
#[derive(Debug, Clone)]
pub struct DeviceInfo {
    /// Firmware version text.
    pub firmware_version: String,
    /// Model number text.
    pub model_number: String,
    /// Serial number text.
    pub serial_number: String,
}

impl DeviceInfo {
    /// A copy of the identification.
    pub fn duplicate(&self) -> (r: DeviceInfo)
        ensures
            r == *self,
    {
        DeviceInfo {
            firmware_version: self.firmware_version.clone(),
            model_number: self.model_number.clone(),
            serial_number: self.serial_number.clone(),
        }
    }
}

} // verus!
