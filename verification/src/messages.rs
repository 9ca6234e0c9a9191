//! The unified message type, its validation, routing and construction.

use vstd::prelude::*;
use vstd::string::*;

use crate::app_state::{AppView, NotificationType};
use crate::device_messages::{DeviceMessage, DeviceOperationResult, SafetyLevel};
use crate::error::LumidoxError;
use crate::text::{copy_text, join2, text_is_empty};
use crate::ui_messages::{MessageCategory, MessagePriority, UiMessage};
use crate::unified_state::UnifiedState;

verus! {

/// All messages of the GUI.
#[derive(Debug)]
pub enum Message {
    /// A device operation.
    Device(DeviceMessage),
    /// A UI interaction.
    Ui(UiMessage),
    /// A device operation completed with a result.
    DeviceOperationCompleted(DeviceOperationResult),
    /// Periodic tick.
    Tick,
}

impl Message {
    /// Whether the message is processed asynchronously: device operations and
    /// refresh requests.
    pub open spec fn asynchronous(&self) -> bool {
        match self {
            Message::Device(_) => true,
            Message::Ui(u) => u is RefreshRequested,
            _ => false,
        }
    }

    /// Whether the message is a destructive device operation.
    pub open spec fn destructive(&self) -> bool {
        match self {
            Message::Device(d) => d.destructive(),
            _ => false,
        }
    }

    /// The message's priority.
    pub open spec fn priority(&self) -> MessagePriority {
        match self {
            Message::Device(d) => match d.safety() {
                SafetyLevel::High => MessagePriority::High,
                SafetyLevel::Medium => MessagePriority::Medium,
                _ => MessagePriority::Normal,
            },
            Message::Ui(u) => u.priority(),
            Message::DeviceOperationCompleted(r) => if r.succeeded() {
                MessagePriority::Normal
            } else {
                MessagePriority::High
            },
            Message::Tick => MessagePriority::Low,
        }
    }

    /// The message's category.
    pub open spec fn category(&self) -> MessageCategory {
        match self {
            Message::Ui(u) => u.category(),
            _ => MessageCategory::System,
        }
    }

    /// The message's description.
    pub open spec fn description(&self) -> Seq<char> {
        match self {
            Message::Device(d) => "Device: "@ + d.description(),
            Message::Ui(u) => "UI: "@ + u.description(),
            Message::DeviceOperationCompleted(r) => if r.succeeded() {
                match r.success_text() {
                    Some(t) => "Operation completed: "@ + t,
                    None => "Operation completed successfully"@,
                }
            } else {
                match r.error_of() {
                    Some(e) => "Operation failed: "@ + e@,
                    None => "Operation failed"@,
                }
            },
            Message::Tick => "Application tick"@,
        }
    }

    /// Whether `validate` accepts the message in `state`.
    pub open spec fn acceptable(&self, state: &UnifiedState) -> bool {
        match self {
            Message::Device(d) => {
                &&& d.parameter_problem() is None
                &&& d.needs_connection() ==> state.connected()
                &&& d.destructive() ==> !state.busy()
            },
            Message::Ui(u) => match u {
                UiMessage::InputUpdated { field_name, .. } => field_name@.len() > 0,
                _ => true,
            },
            _ => true,
        }
    }

    /// The text of the error that `validate` rejects the message with.
    pub open spec fn rejection_text(&self, state: &UnifiedState) -> Seq<char> {
        match self {
            Message::Device(d) => {
                if d.parameter_problem() is Some {
                    "Invalid input: "@ + d.parameter_problem().unwrap()
                } else if d.needs_connection() && !state.connected() {
                    "Device not connected: "@ + "Device operation requires active connection"@
                } else {
                    "Device busy: "@ + "Cannot perform destructive operation while device is busy"@
                }
            },
            _ => "Invalid input: "@ + "Field name cannot be empty"@,
        }
    }

    /// Whether the message needs asynchronous processing.
    pub fn requires_async_processing(&self) -> (r: bool)
        ensures
            r == self.asynchronous(),
    {
        match self {
            Message::Device(_) => true,
            Message::Ui(ui_msg) => match ui_msg {
                UiMessage::RefreshRequested => true,
                _ => false,
            },
            Message::DeviceOperationCompleted(_) => false,
            Message::Tick => false,
        }
    }

    /// Whether the message is a destructive device operation.
    pub fn is_destructive(&self) -> (r: bool)
        ensures
            r == self.destructive(),
    {
        match self {
            Message::Device(device_msg) => device_msg.is_destructive(),
            _ => false,
        }
    }

    /// The message's priority: by safety level for device operations, high
    /// for failed results.
    pub fn get_priority(&self) -> (r: MessagePriority)
        ensures
            r == self.priority(),
    {
        match self {
            Message::Device(device_msg) => match device_msg.get_safety_level() {
                SafetyLevel::High => MessagePriority::High,
                SafetyLevel::Medium => MessagePriority::Medium,
                SafetyLevel::Low => MessagePriority::Normal,
                SafetyLevel::Negligible => MessagePriority::Normal,
            },
            Message::Ui(ui_msg) => ui_msg.get_priority(),
            Message::DeviceOperationCompleted(result) => {
                if result.is_success() {
                    MessagePriority::Normal
                } else {
                    MessagePriority::High
                }
            },
            Message::Tick => MessagePriority::Low,
        }
    }

    /// The message's category.
    pub fn get_category(&self) -> (r: MessageCategory)
        ensures
            r == self.category(),
    {
        match self {
            Message::Device(_) => MessageCategory::System,
            Message::Ui(ui_msg) => ui_msg.get_category(),
            Message::DeviceOperationCompleted(_) => MessageCategory::System,
            Message::Tick => MessageCategory::System,
        }
    }

    /// The message's description for logging.
    pub fn get_description(&self) -> (s: String)
        ensures
            s@ == self.description(),
    {
        match self {
            Message::Device(device_msg) => {
                let d = device_msg.get_description();
                join2("Device: ", d.as_str())
            },
            Message::Ui(ui_msg) => {
                let d = ui_msg.get_description();
                join2("UI: ", d.as_str())
            },
            Message::DeviceOperationCompleted(result) => {
                if result.is_success() {
                    match result.get_success_message() {
                        Some(msg) => join2("Operation completed: ", msg.as_str()),
                        None => copy_text("Operation completed successfully"),
                    }
                } else {
                    match result.get_error() {
                        Some(error) => join2("Operation failed: ", error),
                        None => copy_text("Operation failed"),
                    }
                }
            },
            Message::Tick => copy_text("Application tick"),
        }
    }

    /// Checks a message before processing: a device operation's parameters,
    /// then that a device is connected when the operation needs one, then that
    /// nothing is busy when the operation is destructive; an input update needs
    /// a field name.
    pub fn validate(&self, state: &UnifiedState) -> (r: Result<(), LumidoxError>)
        ensures
            r is Ok <==> self.acceptable(state),
            r matches Err(e) ==> e.text() == self.rejection_text(state),
            self matches Message::Device(d) ==> {
                &&& d.parameter_problem() is Some ==> (r matches Err(e) && e is InvalidInput
                    && e.message() == d.parameter_problem().unwrap())
                &&& (d.parameter_problem() is None && d.needs_connection() && !state.connected())
                    ==> (r matches Err(e) && e is DeviceNotConnected && e.message()
                    == "Device operation requires active connection"@)
                &&& (d.parameter_problem() is None && !(d.needs_connection()
                    && !state.connected()) && d.destructive() && state.busy()) ==> (r matches Err(
                    e,
                ) && e is DeviceBusy && e.message()
                    == "Cannot perform destructive operation while device is busy"@)
            },
            self matches Message::Ui(UiMessage::InputUpdated { field_name, .. }) ==> (
            field_name@.len() == 0 ==> (r matches Err(e) && e is InvalidInput && e.message()
                == "Field name cannot be empty"@)),
    {
        match self {
            Message::Device(device_msg) => {
                device_msg.validate()?;
                if device_msg.requires_connection() && !state.is_device_connected() {
                    return Err(
                        LumidoxError::DeviceNotConnected(
                            copy_text("Device operation requires active connection"),
                        ),
                    );
                }
                if device_msg.is_destructive() && state.is_busy() {
                    return Err(
                        LumidoxError::DeviceBusy(
                            copy_text("Cannot perform destructive operation while device is busy"),
                        ),
                    );
                }
            },
            Message::Ui(ui_msg) => match ui_msg {
                UiMessage::InputUpdated { field_name, .. } => {
                    if text_is_empty(field_name.as_str()) {
                        return Err(
                            LumidoxError::InvalidInput(copy_text("Field name cannot be empty")),
                        );
                    }
                },
                _ => {},
            },
            _ => {},
        }
        Ok(())
    }
}

/// Handlers a message can be routed to.
#[derive(Debug, Clone, Copy, PartialEq, Eq, Structural)]
pub enum MessageRoute {
    /// Device operation handler.
    DeviceHandler,
    /// Connection management handler.
    ConnectionHandler,
    /// UI state handler.
    UiHandler,
    /// Operation result handler.
    ResultHandler,
    /// System and lifecycle handler.
    SystemHandler,
}

/// Message routing utilities.
pub struct MessageRouter;

impl MessageRouter {
    /// The handler a message goes to.
    pub open spec fn route(message: &Message, state: &UnifiedState) -> MessageRoute {
        match message {
            Message::Device(_) => if state.connected() {
                MessageRoute::DeviceHandler
            } else {
                MessageRoute::ConnectionHandler
            },
            Message::Ui(_) => MessageRoute::UiHandler,
            Message::DeviceOperationCompleted(_) => MessageRoute::ResultHandler,
            Message::Tick => MessageRoute::SystemHandler,
        }
    }

    /// Whether a message waits: a destructive operation while busy, or an
    /// operation that needs a device while none is connected.
    pub open spec fn waits(message: &Message, state: &UnifiedState) -> bool {
        ||| message.destructive() && state.busy()
        ||| (message matches Message::Device(d) && d.needs_connection() && !state.connected())
    }

    /// The processing timeout of a message, in seconds.
    pub open spec fn timeout(message: &Message) -> Option<u64> {
        match message {
            Message::Device(d) => match d {
                DeviceMessage::Connect { .. } => Some(30),
                DeviceMessage::FireStage { .. } | DeviceMessage::FireCustom { .. } => Some(10),
                DeviceMessage::ReadDeviceStatus | DeviceMessage::ReadDeviceInfo => Some(5),
                _ => Some(15),
            },
            _ => None,
        }
    }

    /// Routes a message: device operations to the device handler while
    /// connected and to the connection handler otherwise.
    pub fn route_message(message: &Message, state: &UnifiedState) -> (r: MessageRoute)
        ensures
            r == Self::route(message, state),
    {
        match message {
            Message::Device(_) => {
                if state.is_device_connected() {
                    MessageRoute::DeviceHandler
                } else {
                    MessageRoute::ConnectionHandler
                }
            },
            Message::Ui(_) => MessageRoute::UiHandler,
            Message::DeviceOperationCompleted(_) => MessageRoute::ResultHandler,
            Message::Tick => MessageRoute::SystemHandler,
        }
    }

    /// Whether a message should be queued for later.
    pub fn should_queue_message(message: &Message, state: &UnifiedState) -> (r: bool)
        ensures
            r == Self::waits(message, state),
    {
        if message.is_destructive() && state.is_busy() {
            return true;
        }
        match message {
            Message::Device(device_msg) => {
                if device_msg.requires_connection() && !state.is_device_connected() {
                    return true;
                }
            },
            _ => {},
        }
        false
    }

    /// The processing timeout: 30 s to connect, 10 s to fire, 5 s to read the
    /// status or information, 15 s for other device operations, none otherwise.
    pub fn get_processing_timeout(message: &Message) -> (r: Option<u64>)
        ensures
            r == Self::timeout(message),
    {
        match message {
            Message::Device(device_msg) => match device_msg {
                DeviceMessage::Connect { .. } => Some(30),
                DeviceMessage::FireStage { .. } | DeviceMessage::FireCustom { .. } => Some(10),
                DeviceMessage::ReadDeviceStatus | DeviceMessage::ReadDeviceInfo => Some(5),
                _ => Some(15),
            },
            Message::Ui(_) => None,
            Message::DeviceOperationCompleted(_) => None,
            Message::Tick => None,
        }
    }
}

/// Message constructors.
pub struct MessageFactory;

impl MessageFactory {
    /// A connection message.
    pub fn connect_device(
        port_name: Option<String>,
        auto_detect: bool,
        verbose: bool,
        optimize_transitions: bool,
    ) -> (r: Message)
        ensures
            r == Message::Device(
                DeviceMessage::Connect { port_name, auto_detect, verbose, optimize_transitions },
            ),
    {
        Message::Device(DeviceMessage::Connect { port_name, auto_detect, verbose, optimize_transitions })
    }

    /// A disconnection message.
    pub fn disconnect_device() -> (r: Message)
        ensures
            r == Message::Device(DeviceMessage::Disconnect),
    {
        Message::Device(DeviceMessage::Disconnect)
    }

    /// A stage firing message.
    pub fn fire_stage(stage: u8) -> (r: Message)
        ensures
            r == Message::Device(DeviceMessage::FireStage { stage }),
    {
        Message::Device(DeviceMessage::FireStage { stage })
    }

    /// An ARM current message.
    pub fn set_arm_current(current: u16) -> (r: Message)
        ensures
            r == Message::Device(DeviceMessage::SetArmCurrent { current }),
    {
        Message::Device(DeviceMessage::SetArmCurrent { current })
    }

    /// A view change message.
    pub fn change_view(view: AppView) -> (r: Message)
        ensures
            r == Message::Ui(UiMessage::ViewChanged { view }),
    {
        Message::Ui(UiMessage::ViewChanged { view })
    }

    /// An input update message.
    pub fn update_input(field_name: String, value: String) -> (r: Message)
        ensures
            r == Message::Ui(UiMessage::InputUpdated { field_name, value }),
    {
        Message::Ui(UiMessage::InputUpdated { field_name, value })
    }

    /// A notification message.
    pub fn show_notification(
        message: String,
        notification_type: NotificationType,
        auto_dismiss: Option<u32>,
    ) -> (r: Message)
        ensures
            r == Message::Ui(UiMessage::ShowNotification { message, notification_type, auto_dismiss }),
    {
        Message::Ui(UiMessage::ShowNotification { message, notification_type, auto_dismiss })
    }
}

} // verus!
