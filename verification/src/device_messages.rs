//! Device operation messages, their safety levels, and operation results.

use vstd::prelude::*;
use vstd::string::*;

use crate::error::{DeviceInfo, DeviceMode, LumidoxError};
use crate::text::{copy_text, decimal, join2, text_then_number, text_with_number};

verus! {

/// The largest current, in mA, that a device message may carry.
pub const MAX_MESSAGE_CURRENT: u16 = 5000;

/// Device operation messages.
#[derive(Debug)]
pub enum DeviceMessage {
    /// Connect with the given configuration.
    Connect { port_name: Option<String>, auto_detect: bool, verbose: bool, optimize_transitions: bool },
    /// Disconnect from the current device.
    Disconnect,
    /// Fire a stage (1-5).
    FireStage { stage: u8 },
    /// Fire with a custom current, in mA.
    FireCustom { current: u16 },
    /// Set the ARM current, in mA.
    SetArmCurrent { current: u16 },
    /// Arm the device.
    ArmDevice,
    /// Turn the device off.
    TurnOffDevice,
    /// Shut the device down and quit.
    ShutdownDevice,
    /// Read the device status and parameters.
    ReadDeviceStatus,
    /// Read the device information.
    ReadDeviceInfo,
    /// Read the ARM current setting.
    ReadArmCurrent,
    /// Read the FIRE current setting.
    ReadFireCurrent,
    /// Read the remote mode.
    ReadRemoteMode,
    /// Read a stage's parameters (1-5).
    ReadStageParameters { stage: u8 },
    /// Refresh all cached parameters.
    RefreshParameters,
}

/// Safety levels of device operations.
#[derive(Debug, Clone, Copy, PartialEq, Eq, Structural)]
pub enum SafetyLevel {
    /// No safety concern (reads).
    Negligible,
    /// Low impact (configuration).
    Low,
    /// Medium impact (device state changes).
    Medium,
    /// High impact (firing).
    High,
}

impl DeviceMessage {
    /// Whether the operation may change what the device emits or its power.
    pub open spec fn destructive(&self) -> bool {
        self is FireStage || self is FireCustom || self is ArmDevice || self is TurnOffDevice
            || self is ShutdownDevice
    }

    /// Whether the operation needs a connected device.
    pub open spec fn needs_connection(&self) -> bool {
        !(self is Connect || self is Disconnect)
    }

    /// The operation's safety level.
    pub open spec fn safety(&self) -> SafetyLevel {
        match self {
            DeviceMessage::FireStage { .. } | DeviceMessage::FireCustom { .. } => SafetyLevel::High,
            DeviceMessage::ArmDevice | DeviceMessage::TurnOffDevice
            | DeviceMessage::ShutdownDevice => SafetyLevel::Medium,
            DeviceMessage::SetArmCurrent { .. } | DeviceMessage::Connect { .. }
            | DeviceMessage::Disconnect => SafetyLevel::Low,
            _ => SafetyLevel::Negligible,
        }
    }

    /// The message a parameter out of range gets, if any parameter is.
    pub open spec fn parameter_problem(&self) -> Option<Seq<char>> {
        match self {
            DeviceMessage::FireStage { stage } | DeviceMessage::ReadStageParameters { stage } => {
                if 1 <= *stage <= 5 {
                    None
                } else {
                    Some("Invalid stage number: "@ + decimal(*stage as nat) + ". Must be 1-5."@)
                }
            },
            DeviceMessage::FireCustom { current } => {
                if *current == 0 {
                    Some("Fire current must be greater than 0"@)
                } else if *current > 5000 {
                    Some("Fire current must not exceed 5000mA"@)
                } else {
                    None
                }
            },
            DeviceMessage::SetArmCurrent { current } => {
                if *current == 0 {
                    Some("ARM current must be greater than 0"@)
                } else if *current > 5000 {
                    Some("ARM current must not exceed 5000mA"@)
                } else {
                    None
                }
            },
            _ => None,
        }
    }

    /// The operation's description.
    pub open spec fn description(&self) -> Seq<char> {
        match self {
            DeviceMessage::Connect { port_name, auto_detect, .. } => {
                if *auto_detect {
                    "Connect (Auto-detect)"@
                } else {
                    match port_name {
                        Some(p) => "Connect to "@ + p@,
                        None => "Connect"@,
                    }
                }
            },
            DeviceMessage::Disconnect => "Disconnect"@,
            DeviceMessage::FireStage { stage } => "Fire Stage "@ + decimal(*stage as nat),
            DeviceMessage::FireCustom { current } => "Fire with "@ + decimal(*current as nat) + "mA"@,
            DeviceMessage::SetArmCurrent { current } => "Set ARM Current to "@ + decimal(
                *current as nat,
            ) + "mA"@,
            DeviceMessage::ArmDevice => "Arm Device"@,
            DeviceMessage::TurnOffDevice => "Turn Off Device"@,
            DeviceMessage::ShutdownDevice => "Shutdown Device"@,
            DeviceMessage::ReadDeviceStatus => "Read Device Status"@,
            DeviceMessage::ReadDeviceInfo => "Read Device Information"@,
            DeviceMessage::ReadArmCurrent => "Read ARM Current"@,
            DeviceMessage::ReadFireCurrent => "Read FIRE Current"@,
            DeviceMessage::ReadRemoteMode => "Read Remote Mode"@,
            DeviceMessage::ReadStageParameters { stage } => "Read Stage "@ + decimal(*stage as nat)
                + " Parameters"@,
            DeviceMessage::RefreshParameters => "Refresh Parameters"@,
        }
    }

    /// Whether the operation is potentially destructive: firing, arming,
    /// turning off or shutting down.
    pub fn is_destructive(&self) -> (r: bool)
        ensures
            r == self.destructive(),
    {
        match self {
            DeviceMessage::FireStage { .. } | DeviceMessage::FireCustom { .. }
            | DeviceMessage::ArmDevice | DeviceMessage::TurnOffDevice
            | DeviceMessage::ShutdownDevice => true,
            _ => false,
        }
    }

    /// Whether the operation needs a connected device: all but connecting and
    /// disconnecting.
    pub fn requires_connection(&self) -> (r: bool)
        ensures
            r == self.needs_connection(),
    {
        match self {
            DeviceMessage::Connect { .. } | DeviceMessage::Disconnect => false,
            _ => true,
        }
    }

    /// The operation's description for status displays.
    pub fn get_description(&self) -> (s: String)
        ensures
            s@ == self.description(),
    {
        match self {
            DeviceMessage::Connect { port_name, auto_detect, .. } => {
                if *auto_detect {
                    copy_text("Connect (Auto-detect)")
                } else {
                    match port_name {
                        Some(port) => join2("Connect to ", port.as_str()),
                        None => copy_text("Connect"),
                    }
                }
            },
            DeviceMessage::Disconnect => copy_text("Disconnect"),
            DeviceMessage::FireStage { stage } => text_then_number("Fire Stage ", *stage as u64),
            DeviceMessage::FireCustom { current } => text_with_number(
                "Fire with ",
                *current as u64,
                "mA",
            ),
            DeviceMessage::SetArmCurrent { current } => text_with_number(
                "Set ARM Current to ",
                *current as u64,
                "mA",
            ),
            DeviceMessage::ArmDevice => copy_text("Arm Device"),
            DeviceMessage::TurnOffDevice => copy_text("Turn Off Device"),
            DeviceMessage::ShutdownDevice => copy_text("Shutdown Device"),
            DeviceMessage::ReadDeviceStatus => copy_text("Read Device Status"),
            DeviceMessage::ReadDeviceInfo => copy_text("Read Device Information"),
            DeviceMessage::ReadArmCurrent => copy_text("Read ARM Current"),
            DeviceMessage::ReadFireCurrent => copy_text("Read FIRE Current"),
            DeviceMessage::ReadRemoteMode => copy_text("Read Remote Mode"),
            DeviceMessage::ReadStageParameters { stage } => text_with_number(
                "Read Stage ",
                *stage as u64,
                " Parameters",
            ),
            DeviceMessage::RefreshParameters => copy_text("Refresh Parameters"),
        }
    }

    /// The operation's safety level: firing is high, arming, turning off and
    /// shutting down are medium, configuring and connecting are low, reads none.
    pub fn get_safety_level(&self) -> (r: SafetyLevel)
        ensures
            r == self.safety(),
    {
        match self {
            DeviceMessage::FireStage { .. } | DeviceMessage::FireCustom { .. } => SafetyLevel::High,
            DeviceMessage::ArmDevice | DeviceMessage::TurnOffDevice
            | DeviceMessage::ShutdownDevice => SafetyLevel::Medium,
            DeviceMessage::SetArmCurrent { .. } => SafetyLevel::Low,
            DeviceMessage::Connect { .. } | DeviceMessage::Disconnect => SafetyLevel::Low,
            _ => SafetyLevel::Negligible,
        }
    }

    /// Checks the message's parameters: stages 1-5, currents 1-5000 mA.
    pub fn validate(&self) -> (r: Result<(), LumidoxError>)
        ensures
            r is Ok <==> self.parameter_problem() is None,
            r matches Err(e) ==> (e is InvalidInput && e.message()
                == self.parameter_problem().unwrap()),
            *self matches DeviceMessage::FireStage { stage } ==> (r is Ok <==> 1 <= stage <= 5),
            *self matches DeviceMessage::ReadStageParameters { stage } ==> (r is Ok <==> 1 <= stage
                <= 5),
            *self matches DeviceMessage::FireCustom { current } ==> (r is Ok <==> 1 <= current
                <= MAX_MESSAGE_CURRENT),
            *self matches DeviceMessage::SetArmCurrent { current } ==> (r is Ok <==> 1 <= current
                <= MAX_MESSAGE_CURRENT),
    {
        match self {
            DeviceMessage::FireStage { stage } | DeviceMessage::ReadStageParameters { stage } => {
                if !(1 <= *stage && *stage <= 5) {
                    return Err(
                        LumidoxError::InvalidInput(
                            text_with_number("Invalid stage number: ", *stage as u64, ". Must be 1-5."),
                        ),
                    );
                }
            },
            DeviceMessage::FireCustom { current } => {
                if *current == 0 {
                    return Err(
                        LumidoxError::InvalidInput(copy_text("Fire current must be greater than 0")),
                    );
                }
                if *current > MAX_MESSAGE_CURRENT {
                    return Err(
                        LumidoxError::InvalidInput(copy_text("Fire current must not exceed 5000mA")),
                    );
                }
            },
            DeviceMessage::SetArmCurrent { current } => {
                if *current == 0 {
                    return Err(
                        LumidoxError::InvalidInput(copy_text("ARM current must be greater than 0")),
                    );
                }
                if *current > MAX_MESSAGE_CURRENT {
                    return Err(
                        LumidoxError::InvalidInput(copy_text("ARM current must not exceed 5000mA")),
                    );
                }
            },
            _ => {},
        }
        Ok(())
    }
}

/// Results of device operations.
#[derive(Debug)]
pub enum DeviceOperationResult {
    /// A connection attempt.
    ConnectionResult {
        success: bool,
        port_name: Option<String>,
        device_info: Option<DeviceInfo>,
        error: Option<String>,
    },
    /// A firing operation.
    FiringResult { success: bool, operation: String, error: Option<String> },
    /// A parameter operation.
    ParameterResult {
        success: bool,
        parameter_name: String,
        value: Option<String>,
        error: Option<String>,
    },
    /// A status read.
    StatusResult {
        success: bool,
        device_mode: Option<DeviceMode>,
        arm_current: Option<u16>,
        fire_current: Option<u16>,
        error: Option<String>,
    },
    /// Any other operation.
    GeneralResult { success: bool, operation: String, message: Option<String>, error: Option<String> },
}

impl DeviceOperationResult {
    /// Whether the operation succeeded.
    pub open spec fn succeeded(&self) -> bool {
        match self {
            DeviceOperationResult::ConnectionResult { success, .. } => *success,
            DeviceOperationResult::FiringResult { success, .. } => *success,
            DeviceOperationResult::ParameterResult { success, .. } => *success,
            DeviceOperationResult::StatusResult { success, .. } => *success,
            DeviceOperationResult::GeneralResult { success, .. } => *success,
        }
    }

    /// The error the result carries.
    pub open spec fn error_of(&self) -> Option<String> {
        match self {
            DeviceOperationResult::ConnectionResult { error, .. } => *error,
            DeviceOperationResult::FiringResult { error, .. } => *error,
            DeviceOperationResult::ParameterResult { error, .. } => *error,
            DeviceOperationResult::StatusResult { error, .. } => *error,
            DeviceOperationResult::GeneralResult { error, .. } => *error,
        }
    }

    /// The success message of a successful result, if it has one.
    pub open spec fn success_text(&self) -> Option<Seq<char>> {
        match self {
            DeviceOperationResult::ConnectionResult { success, port_name, .. } => if *success {
                Some(
                    "Connected to device on "@ + match port_name {
                        Some(p) => p@,
                        None => "auto-detected port"@,
                    },
                )
            } else {
                None
            },
            DeviceOperationResult::FiringResult { success, operation, .. } => if *success {
                Some(operation@ + " completed successfully"@)
            } else {
                None
            },
            DeviceOperationResult::ParameterResult { success, parameter_name, value, .. } => if *success {
                match value {
                    Some(v) => Some(parameter_name@ + " set to "@ + v@),
                    None => Some(parameter_name@ + " operation completed"@),
                }
            } else {
                None
            },
            DeviceOperationResult::GeneralResult { success, message, .. } => if *success {
                match message {
                    Some(m) => Some(m@),
                    None => None,
                }
            } else {
                None
            },
            DeviceOperationResult::StatusResult { .. } => None,
        }
    }

    /// Whether the operation succeeded.
    pub fn is_success(&self) -> (r: bool)
        ensures
            r == self.succeeded(),
    {
        match self {
            DeviceOperationResult::ConnectionResult { success, .. } => *success,
            DeviceOperationResult::FiringResult { success, .. } => *success,
            DeviceOperationResult::ParameterResult { success, .. } => *success,
            DeviceOperationResult::StatusResult { success, .. } => *success,
            DeviceOperationResult::GeneralResult { success, .. } => *success,
        }
    }

    /// The error message, if the result carries one.
    pub fn get_error(&self) -> (r: Option<&str>)
        ensures
            r is Some <==> self.error_of() is Some,
            r matches Some(e) ==> e@ == self.error_of().unwrap()@,
    {
        let error = match self {
            DeviceOperationResult::ConnectionResult { error, .. } => error,
            DeviceOperationResult::FiringResult { error, .. } => error,
            DeviceOperationResult::ParameterResult { error, .. } => error,
            DeviceOperationResult::StatusResult { error, .. } => error,
            DeviceOperationResult::GeneralResult { error, .. } => error,
        };
        match error {
            Some(e) => Some(e.as_str()),
            None => None,
        }
    }

    /// The message that tells the user of a success.
    pub fn get_success_message(&self) -> (r: Option<String>)
        ensures
            r is Some <==> self.success_text() is Some,
            r matches Some(m) ==> m@ == self.success_text().unwrap(),
    {
        match self {
            DeviceOperationResult::ConnectionResult { success, port_name, .. } => {
                if *success {
                    match port_name {
                        Some(p) => Some(join2("Connected to device on ", p.as_str())),
                        None => Some(join2("Connected to device on ", "auto-detected port")),
                    }
                } else {
                    None
                }
            },
            DeviceOperationResult::FiringResult { success, operation, .. } => {
                if *success {
                    Some(join2(operation.as_str(), " completed successfully"))
                } else {
                    None
                }
            },
            DeviceOperationResult::ParameterResult { success, parameter_name, value, .. } => {
                if *success {
                    match value {
                        Some(v) => Some(
                            copy_text(parameter_name.as_str()).concat(" set to ").concat(
                                v.as_str(),
                            ),
                        ),
                        None => Some(join2(parameter_name.as_str(), " operation completed")),
                    }
                } else {
                    None
                }
            },
            DeviceOperationResult::GeneralResult { success, message, .. } => {
                if *success {
                    match message {
                        Some(m) => Some(m.clone()),
                        None => None,
                    }
                } else {
                    None
                }
            },
            DeviceOperationResult::StatusResult { .. } => None,
        }
    }
}

} // verus!
