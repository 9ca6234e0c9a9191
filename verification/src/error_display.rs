//! How errors are shown: titles, friendly texts, recovery suggestions,
//! severities, toasts and inline validation, and the display panels that
//! gather them.

use vstd::prelude::*;
use vstd::string::*;

use crate::display::{DeviceInfoPanel, DeviceStatus, InfoDisplay, InfoReadings, StatusDisplay};
use crate::error::{DeviceMode, LumidoxError};
use crate::text::{copy_text, join2, text_is_empty};
use crate::view::{badge_is, Badge, Tone};

verus! {

/// The kind of a message: how a toast or a severity is shown.
#[derive(Debug, Clone, Copy, PartialEq, Eq, Structural)]
pub enum ErrorType {
    /// A failure that needs attention.
    Error,
    /// Something to note.
    Warning,
    /// Good news.
    Success,
    /// Information.
    Info,
}

/// The five families that errors are shown by. Errors of the other kinds are
/// shown as the family nearest to them: invalid input as a validation error,
/// an invalid state as a system error, a missing or busy device as a device
/// error.
#[derive(Debug, Clone, Copy, PartialEq, Eq, Structural)]
pub enum ErrorFamily {
    /// Device operations.
    Device,
    /// Communication with the device.
    Communication,
    /// Validation of values.
    Validation,
    /// The system.
    System,
    /// Configuration.
    Config,
}

/// The family an error is shown by.
pub open spec fn family(e: LumidoxError) -> ErrorFamily {
    match e {
        LumidoxError::DeviceError(_) => ErrorFamily::Device,
        LumidoxError::CommunicationError(_) => ErrorFamily::Communication,
        LumidoxError::ValidationError(_) => ErrorFamily::Validation,
        LumidoxError::SystemError(_) => ErrorFamily::System,
        LumidoxError::ConfigError(_) => ErrorFamily::Config,
        LumidoxError::InvalidInput(_) => ErrorFamily::Validation,
        LumidoxError::InvalidState(_) => ErrorFamily::System,
        LumidoxError::DeviceNotConnected(_) => ErrorFamily::Device,
        LumidoxError::DeviceBusy(_) => ErrorFamily::Device,
    }
}

/// The family an error is shown by.
pub fn family_of(e: &LumidoxError) -> (f: ErrorFamily)
    ensures
        f == family(*e),
{
    match e {
        LumidoxError::DeviceError(_) => ErrorFamily::Device,
        LumidoxError::CommunicationError(_) => ErrorFamily::Communication,
        LumidoxError::ValidationError(_) => ErrorFamily::Validation,
        LumidoxError::SystemError(_) => ErrorFamily::System,
        LumidoxError::ConfigError(_) => ErrorFamily::Config,
        LumidoxError::InvalidInput(_) => ErrorFamily::Validation,
        LumidoxError::InvalidState(_) => ErrorFamily::System,
        LumidoxError::DeviceNotConnected(_) => ErrorFamily::Device,
        LumidoxError::DeviceBusy(_) => ErrorFamily::Device,
    }
}

/// The symbol in front of a message.
#[derive(Debug, Clone, Copy, PartialEq, Eq, Structural)]
pub enum Icon {
    /// A warning sign.
    Warning,
    /// A check mark.
    Check,
    /// An information sign.
    Info,
}

/// A toast: a short message with its symbol and tone.
#[derive(Debug)]
pub struct Toast {
    /// The symbol.
    pub icon: Icon,
    /// The message.
    pub message: String,
    /// The tone.
    pub tone: Tone,
}

/// Feedback next to an input field.
#[derive(Debug)]
pub struct InlineValidation {
    /// The symbol.
    pub icon: Icon,
    /// The feedback.
    pub text: String,
    /// The tone.
    pub tone: Tone,
}

/// An error panel.
#[derive(Debug)]
pub struct ErrorMessage {
    /// The error's title.
    pub title: String,
    /// The family whose colour the panel takes.
    pub family: ErrorFamily,
    /// The message.
    pub message: String,
    /// The retry button's label, when retrying is offered.
    pub retry_label: Option<String>,
    /// The dismiss button's label.
    pub dismiss_label: String,
}

/// The recovery panel.
#[derive(Debug)]
pub struct RecoveryPanel {
    /// The panel's title.
    pub title: String,
    /// What to try.
    pub suggestions: String,
    /// Reconnect, reset and continue.
    pub buttons: Vec<String>,
}

/// Error panels, toasts and validation feedback.
pub struct ErrorDisplay;

impl ErrorDisplay {
    /// The title an error is shown under.
    pub open spec fn title(f: ErrorFamily) -> Seq<char> {
        match f {
            ErrorFamily::Device => "Device Error"@,
            ErrorFamily::Communication => "Communication Error"@,
            ErrorFamily::Validation => "Validation Error"@,
            ErrorFamily::System => "System Error"@,
            ErrorFamily::Config => "Configuration Error"@,
        }
    }

    /// The title an error is shown under.
    pub fn error_title(error: &LumidoxError) -> (s: String)
        ensures
            s@ == Self::title(family(*error)),
    {
        match family_of(error) {
            ErrorFamily::Device => copy_text("Device Error"),
            ErrorFamily::Communication => copy_text("Communication Error"),
            ErrorFamily::Validation => copy_text("Validation Error"),
            ErrorFamily::System => copy_text("System Error"),
            ErrorFamily::Config => copy_text("Configuration Error"),
        }
    }

    /// The friendly text of an error panel.
    pub open spec fn friendly(f: ErrorFamily) -> Seq<char> {
        match f {
            ErrorFamily::Device => "A device operation failed. Check device connection and try again."@,
            ErrorFamily::Communication => "Communication with device failed. Verify connection and retry."@,
            ErrorFamily::Validation => "Input validation failed. Please check your input and try again."@,
            ErrorFamily::System => "A system error occurred. Please try again or restart the application."@,
            ErrorFamily::Config => "Configuration error detected. Please check settings and try again."@,
        }
    }

    /// The message of an error panel: the error's own text with details,
    /// else a friendly text for its family.
    pub fn format_error_message(error: &LumidoxError, show_details: bool) -> (s: String)
        ensures
            show_details ==> s@ == error.text(),
            !show_details ==> s@ == Self::friendly(family(*error)),
    {
        if show_details {
            return error.to_display_string();
        }
        match family_of(error) {
            ErrorFamily::Device => copy_text(
                "A device operation failed. Check device connection and try again.",
            ),
            ErrorFamily::Communication => copy_text(
                "Communication with device failed. Verify connection and retry.",
            ),
            ErrorFamily::Validation => copy_text(
                "Input validation failed. Please check your input and try again.",
            ),
            ErrorFamily::System => copy_text(
                "A system error occurred. Please try again or restart the application.",
            ),
            ErrorFamily::Config => copy_text(
                "Configuration error detected. Please check settings and try again.",
            ),
        }
    }

    /// What to try after an error of a family.
    pub open spec fn suggestions(f: ErrorFamily) -> Seq<char> {
        match f {
            ErrorFamily::Device => "Try reconnecting to the device or check if the device is powered on and properly connected."@,
            ErrorFamily::Communication => "Check the serial connection, verify the correct port is selected, and ensure no other applications are using the device."@,
            ErrorFamily::Validation => "Verify your input values are within the acceptable range and format."@,
            ErrorFamily::System => "Try restarting the application or check system resources."@,
            ErrorFamily::Config => "Reset configuration to defaults or check configuration file permissions."@,
        }
    }

    /// What to try after an error.
    pub fn get_recovery_suggestions(error: &LumidoxError) -> (s: String)
        ensures
            s@ == Self::suggestions(family(*error)),
    {
        match family_of(error) {
            ErrorFamily::Device => copy_text(
                "Try reconnecting to the device or check if the device is powered on and properly connected.",
            ),
            ErrorFamily::Communication => copy_text(
                "Check the serial connection, verify the correct port is selected, and ensure no other applications are using the device.",
            ),
            ErrorFamily::Validation => copy_text(
                "Verify your input values are within the acceptable range and format.",
            ),
            ErrorFamily::System => copy_text(
                "Try restarting the application or check system resources.",
            ),
            ErrorFamily::Config => copy_text(
                "Reset configuration to defaults or check configuration file permissions.",
            ),
        }
    }

    /// Whether an error panel shows this error.
    pub open spec fn message_shows(m: ErrorMessage, e: LumidoxError, details: bool, retry: bool) -> bool {
        &&& m.title@ == Self::title(family(e))
        &&& m.family == family(e)
        &&& m.message@ == if details {
            e.text()
        } else {
            Self::friendly(family(e))
        }
        &&& retry ==> (m.retry_label matches Some(l) && l@ == "Retry"@)
        &&& !retry ==> m.retry_label is None
        &&& m.dismiss_label@ == "Dismiss"@
    }

    /// An error panel: title, message, and dismiss, with retry when offered.
    pub fn create_error_message(error: &LumidoxError, show_details: bool, offer_retry: bool) -> (m: ErrorMessage)
        ensures
            Self::message_shows(m, *error, show_details, offer_retry),
    {
        ErrorMessage {
            title: Self::error_title(error),
            family: family_of(error),
            message: Self::format_error_message(error, show_details),
            retry_label: if offer_retry {
                Some(copy_text("Retry"))
            } else {
                None
            },
            dismiss_label: copy_text("Dismiss"),
        }
    }

    /// The symbol and tone of a toast of a kind.
    pub open spec fn toast_style(t: ErrorType) -> (Icon, Tone) {
        match t {
            ErrorType::Error => (Icon::Warning, Tone::Danger),
            ErrorType::Warning => (Icon::Warning, Tone::Caution),
            ErrorType::Success => (Icon::Check, Tone::Success),
            ErrorType::Info => (Icon::Info, Tone::Ready),
        }
    }

    /// A toast of a kind.
    pub fn create_toast_notification(message: &str, error_type: ErrorType) -> (t: Toast)
        ensures
            t.message@ == message@,
            t.icon == Self::toast_style(error_type).0,
            t.tone == Self::toast_style(error_type).1,
    {
        let (icon, tone) = match error_type {
            ErrorType::Error => (Icon::Warning, Tone::Danger),
            ErrorType::Warning => (Icon::Warning, Tone::Caution),
            ErrorType::Success => (Icon::Check, Tone::Success),
            ErrorType::Info => (Icon::Info, Tone::Ready),
        };
        Toast { icon, message: copy_text(message), tone }
    }

    /// Feedback for a field: `<field> is valid` with a check mark when there
    /// is no validation message, else the message with a warning.
    pub fn create_inline_validation(validation_message: &str, field_name: &str) -> (v: InlineValidation)
        ensures
            validation_message@.len() == 0 ==> v.text@ == field_name@ + " is valid"@ && v.icon
                == Icon::Check && v.tone == Tone::Success,
            validation_message@.len() != 0 ==> v.text@ == validation_message@ && v.icon
                == Icon::Warning && v.tone == Tone::Danger,
    {
        if text_is_empty(validation_message) {
            InlineValidation {
                icon: Icon::Check,
                text: join2(field_name, " is valid"),
                tone: Tone::Success,
            }
        } else {
            InlineValidation {
                icon: Icon::Warning,
                text: copy_text(validation_message),
                tone: Tone::Danger,
            }
        }
    }

    /// Whether a recovery panel shows the suggestions for this error.
    pub open spec fn recovery_shows(p: RecoveryPanel, e: LumidoxError) -> bool {
        &&& p.title@ == "Recovery Options"@
        &&& p.suggestions@ == Self::suggestions(family(e))
        &&& p.buttons@.len() == 3
        &&& p.buttons@[0]@ == "Reconnect"@
        &&& p.buttons@[1]@ == "Reset"@
        &&& p.buttons@[2]@ == "Continue"@
    }

    /// The recovery panel: what to try, and reconnect, reset or continue.
    pub fn create_error_recovery(error: &LumidoxError) -> (p: RecoveryPanel)
        ensures
            Self::recovery_shows(p, *error),
    {
        let mut buttons: Vec<String> = Vec::new();
        buttons.push(copy_text("Reconnect"));
        buttons.push(copy_text("Reset"));
        buttons.push(copy_text("Continue"));
        RecoveryPanel {
            title: copy_text("Recovery Options"),
            suggestions: Self::get_recovery_suggestions(error),
            buttons,
        }
    }
}

/// The status and information panels together.
#[derive(Debug)]
pub struct InfoPanel {
    /// The status panel.
    pub status: DeviceStatus,
    /// The information panel.
    pub info: DeviceInfoPanel,
}

/// Coordinates the display panels.
pub struct DisplayComponents;

impl DisplayComponents {
    /// The friendly text of an error in the window.
    pub open spec fn gui_text(f: ErrorFamily) -> Seq<char> {
        match f {
            ErrorFamily::Device => "Device operation failed. Please check the device connection and try again."@,
            ErrorFamily::Communication => "Communication with device failed. Please verify the connection and retry."@,
            ErrorFamily::Validation => "Input validation failed. Please check your input values and try again."@,
            ErrorFamily::System => "A system error occurred. Please try again or restart the application."@,
            ErrorFamily::Config => "Configuration error detected. Please check your settings and try again."@,
        }
    }

    /// An error as the window shows it: its own text with technical
    /// details, else a friendly text for its family.
    pub fn format_error_for_gui(error: &LumidoxError, show_technical_details: bool) -> (s: String)
        ensures
            show_technical_details ==> s@ == error.text(),
            !show_technical_details ==> s@ == Self::gui_text(family(*error)),
    {
        if show_technical_details {
            return error.to_display_string();
        }
        match family_of(error) {
            ErrorFamily::Device => copy_text(
                "Device operation failed. Please check the device connection and try again.",
            ),
            ErrorFamily::Communication => copy_text(
                "Communication with device failed. Please verify the connection and retry.",
            ),
            ErrorFamily::Validation => copy_text(
                "Input validation failed. Please check your input values and try again.",
            ),
            ErrorFamily::System => copy_text(
                "A system error occurred. Please try again or restart the application.",
            ),
            ErrorFamily::Config => copy_text(
                "Configuration error detected. Please check your settings and try again.",
            ),
        }
    }

    /// How severe an error of a family is: validation and configuration
    /// errors are warnings, the others errors.
    pub open spec fn severity(f: ErrorFamily) -> ErrorType {
        match f {
            ErrorFamily::Validation => ErrorType::Warning,
            ErrorFamily::Config => ErrorType::Warning,
            _ => ErrorType::Error,
        }
    }

    /// How severe an error is.
    pub fn get_error_severity(error: &LumidoxError) -> (t: ErrorType)
        ensures
            t == Self::severity(family(*error)),
    {
        match family_of(error) {
            ErrorFamily::Device => ErrorType::Error,
            ErrorFamily::Communication => ErrorType::Error,
            ErrorFamily::Validation => ErrorType::Warning,
            ErrorFamily::System => ErrorType::Error,
            ErrorFamily::Config => ErrorType::Warning,
        }
    }

    /// The status and information panels.
    pub fn create_info_panel(
        is_connected: bool,
        mode: &Option<Result<DeviceMode, LumidoxError>>,
        readings: &InfoReadings,
    ) -> (p: InfoPanel)
        requires
            InfoDisplay::readings_complete(*readings),
        ensures
            StatusDisplay::status_shows(p.status, is_connected, *mode),
            InfoDisplay::info_shows(p.info, *readings),
    {
        InfoPanel {
            status: StatusDisplay::create_device_status(is_connected, mode),
            info: InfoDisplay::create_device_info(readings),
        }
    }

    /// The status panel alone.
    pub fn create_status_display_only(is_connected: bool, mode: &Option<Result<DeviceMode, LumidoxError>>) -> (s: DeviceStatus)
        ensures
            StatusDisplay::status_shows(s, is_connected, *mode),
    {
        StatusDisplay::create_device_status(is_connected, mode)
    }

    /// The state in one word.
    pub fn create_status_summary(is_connected: bool, mode: &Option<Result<DeviceMode, LumidoxError>>) -> (b: Badge)
        ensures
            badge_is(
                b,
                StatusDisplay::summary(is_connected, *mode).0,
                StatusDisplay::summary(is_connected, *mode).1,
            ),
    {
        StatusDisplay::create_status_summary(is_connected, mode)
    }

    /// The information panel alone.
    pub fn create_info_display_only(readings: &InfoReadings) -> (p: DeviceInfoPanel)
        requires
            InfoDisplay::readings_complete(*readings),
        ensures
            InfoDisplay::info_shows(p, *readings),
    {
        InfoDisplay::create_device_info(readings)
    }

    /// An error panel.
    pub fn create_error_notification(error: &LumidoxError, show_details: bool, offer_retry: bool) -> (m: ErrorMessage)
        ensures
            ErrorDisplay::message_shows(m, *error, show_details, offer_retry),
    {
        ErrorDisplay::create_error_message(error, show_details, offer_retry)
    }

    /// A toast.
    pub fn create_toast_notification(message: &str, error_type: ErrorType) -> (t: Toast)
        ensures
            t.message@ == message@,
            t.icon == ErrorDisplay::toast_style(error_type).0,
            t.tone == ErrorDisplay::toast_style(error_type).1,
    {
        ErrorDisplay::create_toast_notification(message, error_type)
    }

    /// Feedback for a field.
    pub fn create_inline_validation(validation_message: &str, field_name: &str) -> (v: InlineValidation)
        ensures
            validation_message@.len() == 0 ==> v.text@ == field_name@ + " is valid"@ && v.icon
                == Icon::Check && v.tone == Tone::Success,
            validation_message@.len() != 0 ==> v.text@ == validation_message@ && v.icon
                == Icon::Warning && v.tone == Tone::Danger,
    {
        ErrorDisplay::create_inline_validation(validation_message, field_name)
    }

    /// The recovery panel.
    pub fn create_error_recovery(error: &LumidoxError) -> (p: RecoveryPanel)
        ensures
            ErrorDisplay::recovery_shows(p, *error),
    {
        ErrorDisplay::create_error_recovery(error)
    }
}

} // verus!
