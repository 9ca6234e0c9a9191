//! Handler coordination: from the state and a message to the next state and
//! the device work that the message asks for.

use vstd::prelude::*;
use vstd::string::*;

use crate::app_state::{AppState, NotificationType};
use crate::device_handlers::DeviceHandlers;
use crate::device_messages::{DeviceMessage, DeviceOperationResult};
use crate::device_state::{CachedParameters, ConnectionState, DeviceState, OperationState};
use crate::messages::Message;
use crate::text::{
    copy_text, decimal, join2, parse_unsigned, parse_unsigned_chars, strip_milliamps, text_chars,
    text_then_number, texts_equal, without_milliamps,
};
use crate::ui_handlers::{notice, UiHandlers};
use crate::ui_messages::UiMessage;
use crate::unified_state::UnifiedState;

verus! {

/// The work a message leaves to be done once the state is updated.
#[derive(Debug)]
pub enum HandlerCommand {
    /// Nothing more to do.
    Nothing,
    /// Connect to a device with this configuration.
    Connect { port_name: Option<String>, auto_detect: bool, verbose: bool, optimize_transitions: bool },
    /// Fire a stage.
    FireStage { stage: u8 },
    /// Fire with a custom current.
    FireCustom { current: u16 },
    /// Set the ARM current.
    SetArmCurrent { current: u16 },
    /// Arm the device.
    ArmDevice,
    /// Read the device status.
    ReadDeviceStatus,
    /// Deliver a result that needs no device work as a completed operation.
    Deliver(DeviceOperationResult),
}

/// Whether a result is a successful general result with these texts.
pub open spec fn general_is(r: DeviceOperationResult, op: Seq<char>, msg: Seq<char>) -> bool {
    r matches DeviceOperationResult::GeneralResult { success, operation, message, error } && success
        && operation@ == op && error is None && (message matches Some(m) && m@ == msg)
}

/// Whether a result is a successful parameter result with these texts.
pub open spec fn parameter_is(r: DeviceOperationResult, name: Seq<char>, val: Seq<char>) -> bool {
    r matches DeviceOperationResult::ParameterResult { success, parameter_name, value, error }
        && success && parameter_name@ == name && error is None && (value matches Some(v) && v@
        == val)
}

/// The work a device message asks for.
pub open spec fn command_for(d: DeviceMessage, c: HandlerCommand) -> bool {
    match d {
        DeviceMessage::Connect { port_name, auto_detect, verbose, optimize_transitions } => c
            == HandlerCommand::Connect { port_name, auto_detect, verbose, optimize_transitions },
        DeviceMessage::Disconnect => c matches HandlerCommand::Deliver(r) && general_is(
            r,
            "Disconnect"@,
            "Device disconnected successfully"@,
        ),
        DeviceMessage::FireStage { stage } => c == HandlerCommand::FireStage { stage },
        DeviceMessage::FireCustom { current } => c == HandlerCommand::FireCustom { current },
        DeviceMessage::SetArmCurrent { current } => c == HandlerCommand::SetArmCurrent { current },
        DeviceMessage::ArmDevice => c == HandlerCommand::ArmDevice,
        DeviceMessage::TurnOffDevice => c matches HandlerCommand::Deliver(r) && general_is(
            r,
            "Turn Off Device"@,
            "Device turned off successfully"@,
        ),
        DeviceMessage::ShutdownDevice => c matches HandlerCommand::Deliver(r) && general_is(
            r,
            "Shutdown Device"@,
            "Device shutdown initiated"@,
        ),
        DeviceMessage::ReadDeviceStatus => c == HandlerCommand::ReadDeviceStatus,
        DeviceMessage::ReadDeviceInfo => c matches HandlerCommand::Deliver(r) && general_is(
            r,
            "Read Device Info"@,
            "Device information retrieved"@,
        ),
        DeviceMessage::ReadArmCurrent => c matches HandlerCommand::Deliver(r) && parameter_is(
            r,
            "ARM Current"@,
            "1000mA"@,
        ),
        DeviceMessage::ReadFireCurrent => c matches HandlerCommand::Deliver(r) && parameter_is(
            r,
            "FIRE Current"@,
            "2000mA"@,
        ),
        DeviceMessage::ReadRemoteMode => c matches HandlerCommand::Deliver(r) && general_is(
            r,
            "Read Remote Mode"@,
            "Remote mode: On"@,
        ),
        DeviceMessage::ReadStageParameters { stage } => c matches HandlerCommand::Deliver(r)
            && parameter_is(
            r,
            "Stage "@ + decimal(stage as nat) + " Parameters"@,
            "Parameters retrieved"@,
        ),
        DeviceMessage::RefreshParameters => c == HandlerCommand::ReadDeviceStatus,
    }
}

/// How a device message changes the state: busy with the operation, and for
/// some operations a connection change, a notification or a stale cache.
pub open spec fn device_effect(old: UnifiedState, new: UnifiedState, d: DeviceMessage) -> bool {
    &&& new.app_state == (AppState {
        busy: true,
        notifications: new.app_state.notifications,
        ..old.app_state
    })
    &&& new.device_state == (DeviceState {
        operation_state: new.device_state.operation_state,
        connection_state: new.device_state.connection_state,
        cached_parameters: new.device_state.cached_parameters,
        ..old.device_state
    })
    &&& (new.device_state.operation_state matches OperationState::Busy(o) && o@ == d.description())
    &&& match d {
        DeviceMessage::Connect { .. } => {
            &&& new.device_state.connection_state == ConnectionState::Connecting
            &&& new.device_state.cached_parameters == old.device_state.cached_parameters
            &&& new.app_state.notifications == old.app_state.notifications
        },
        DeviceMessage::Disconnect => {
            &&& new.device_state.connection_state == ConnectionState::Disconnected
            &&& new.device_state.cached_parameters.is_empty()
            &&& new.device_state.cached_parameters.cache_duration
                == old.device_state.cached_parameters.cache_duration
            &&& notice(
                new.app_state.notifications,
                "Device disconnected"@,
                NotificationType::Warning,
                3,
            )
        },
        DeviceMessage::TurnOffDevice => {
            &&& new.device_state.connection_state == old.device_state.connection_state
            &&& new.device_state.cached_parameters == old.device_state.cached_parameters
            &&& notice(
                new.app_state.notifications,
                "Turning off device..."@,
                NotificationType::Info,
                2,
            )
        },
        DeviceMessage::ShutdownDevice => {
            &&& new.device_state.connection_state == old.device_state.connection_state
            &&& new.device_state.cached_parameters == old.device_state.cached_parameters
            &&& notice(
                new.app_state.notifications,
                "Shutting down device..."@,
                NotificationType::Info,
                2,
            )
        },
        DeviceMessage::RefreshParameters => {
            &&& new.device_state.connection_state == old.device_state.connection_state
            &&& new.device_state.cached_parameters == (CachedParameters {
                last_update: None,
                ..old.device_state.cached_parameters
            })
            &&& new.app_state.notifications == old.app_state.notifications
        },
        _ => {
            &&& new.device_state.connection_state == old.device_state.connection_state
            &&& new.device_state.cached_parameters == old.device_state.cached_parameters
            &&& new.app_state.notifications == old.app_state.notifications
        },
    }
}

/// The message an operation result is recorded with: its success message,
/// else its error, else `Operation completed`.
pub open spec fn completion_message(r: DeviceOperationResult) -> Seq<char> {
    match r.success_text() {
        Some(t) => t,
        None => match r.error_of() {
            Some(e) => e@,
            None => "Operation completed"@,
        },
    }
}

/// The ARM current a successful `ARM Current` parameter result sets, if any:
/// its value read as a number once `mA` is taken out.
pub open spec fn arm_current_of(r: DeviceOperationResult) -> Option<nat> {
    match r {
        DeviceOperationResult::ParameterResult { success, parameter_name, value, .. } => {
            if success && parameter_name@ == "ARM Current"@ && value is Some {
                parse_unsigned(without_milliamps(value.unwrap()@), 65535)
            } else {
                None
            }
        },
        _ => None,
    }
}

/// The error that a failed parameter or status result records, if any.
pub open spec fn recorded_error(r: DeviceOperationResult) -> Option<String> {
    match r {
        DeviceOperationResult::ParameterResult { success, error, .. } => if success {
            None
        } else {
            error
        },
        DeviceOperationResult::StatusResult { success, error, .. } => if success {
            None
        } else {
            error
        },
        _ => None,
    }
}

/// How an operation result changes the state.
pub open spec fn completion_effect(old: UnifiedState, new: UnifiedState, r: DeviceOperationResult) -> bool {
    let msg = completion_message(r);
    &&& !new.app_state.busy
    &&& new.app_state == (AppState {
        busy: false,
        last_operation_success: Some(r.succeeded()),
        notifications: new.app_state.notifications,
        ..old.app_state
    })
    &&& r.succeeded() ==> (new.device_state.operation_state matches OperationState::Success(m)
        && m@ == msg)
    &&& !r.succeeded() ==> (new.device_state.operation_state matches OperationState::Failed(m)
        && m@ == msg)
    &&& r.succeeded() ==> notice(new.app_state.notifications, msg, NotificationType::Success, 3)
    &&& !r.succeeded() ==> notice(
        new.app_state.notifications,
        "Operation failed: "@ + msg,
        NotificationType::Error,
        5,
    )
    &&& new.device_state.auto_detect == old.device_state.auto_detect
    &&& new.device_state.verbose == old.device_state.verbose
    &&& new.device_state.optimize_transitions == old.device_state.optimize_transitions
    &&& new.device_state.retry_count == old.device_state.retry_count
    &&& new.device_state.max_retries == old.device_state.max_retries
    &&& new.device_state.cached_parameters.cache_duration
        == old.device_state.cached_parameters.cache_duration
    &&& match r {
        DeviceOperationResult::ConnectionResult { success, port_name, device_info, error } => {
            &&& new.device_state.last_error == old.device_state.last_error
            &&& if success {
                &&& new.device_state.connection_state == ConnectionState::Connected
                &&& new.device_state.port_name == (if port_name is Some {
                    port_name
                } else {
                    old.device_state.port_name
                })
                &&& (device_info matches Some(i) ==> new.device_state.cached_parameters.device_info
                    == Some(i))
            } else {
                &&& (new.device_state.connection_state matches ConnectionState::Failed(e) && e@
                    == (if error is Some {
                    error.unwrap()@
                } else {
                    "Unknown connection error"@
                }))
                &&& new.device_state.cached_parameters.is_empty()
                &&& new.device_state.port_name == old.device_state.port_name
            }
        },
        _ => {
            &&& new.device_state.port_name == old.device_state.port_name
            &&& recorded_error(r) matches Some(e) ==> {
                &&& new.device_state.last_error == Some(e)
                &&& new.device_state.connection_state == ConnectionState::Failed(e)
                &&& new.device_state.cached_parameters.is_empty()
            }
            &&& recorded_error(r) is None ==> {
                &&& new.device_state.last_error == old.device_state.last_error
                &&& new.device_state.connection_state == old.device_state.connection_state
            }
            &&& arm_current_of(r) matches Some(c) ==> new.device_state.cached_parameters.arm_current
                == Some(c as u16)
            &&& match r {
                DeviceOperationResult::StatusResult {
                    success,
                    device_mode,
                    arm_current,
                    fire_current,
                    ..
                } => success ==> {
                    &&& (device_mode matches Some(m)
                        ==> new.device_state.cached_parameters.remote_mode == Some(m))
                    &&& (arm_current matches Some(a)
                        ==> new.device_state.cached_parameters.arm_current == Some(a))
                    &&& (fire_current matches Some(f)
                        ==> new.device_state.cached_parameters.fire_current == Some(f))
                    &&& ((device_mode is Some || arm_current is Some || fire_current is Some)
                        ==> new.device_state.cached_parameters.last_update is Some)
                },
                _ => true,
            }
        },
    }
}

/// Coordinates the handlers.
pub struct HandlerCoordinator;

impl HandlerCoordinator {
    /// How processing a message changes the state and what work it asks for.
    pub open spec fn update_outcome(old: UnifiedState, new: UnifiedState, message: Message, r: HandlerCommand) -> bool {
        &&& (!message.acceptable(&old) ==> {
                &&& r == HandlerCommand::Nothing
                &&& new.device_state == old.device_state
                &&& new.app_state == (AppState {
                    notifications: new.app_state.notifications,
                    ..old.app_state
                })
                &&& notice(
                    new.app_state.notifications,
                    "Message validation failed: "@ + message.rejection_text(&old),
                    NotificationType::Error,
                    5,
                )
            })
        &&& (message.acceptable(&old) ==> match message {
                Message::Device(d) => device_effect(old, new, d) && command_for(
                    d,
                    r,
                ),
                Message::Ui(u) => r == HandlerCommand::Nothing && Self::ui_effect(
                    old,
                    new,
                    u,
                ),
                Message::DeviceOperationCompleted(res) => r == HandlerCommand::Nothing
                    && completion_effect(old, new, res),
                Message::Tick => r == HandlerCommand::Nothing && new.device_state == old.device_state
                    && new.app_state == (AppState {
                    notifications: old.app_state.notifications.ticked(),
                    ..old.app_state
                }),
            })
    }

    /// Processes a message: a message that `validate` refuses only shows why;
    /// device operations mark the state busy and ask for their device work;
    /// UI messages update the state at once; results are recorded; ticks run
    /// the notification timer.
    pub fn update(state: &mut UnifiedState, message: Message) -> (r: HandlerCommand)
        ensures
            Self::update_outcome(*old(state), *final(state), message, r),
    {
        match message.validate(state) {
            Err(error) => {
                let text = error.to_display_string();
                state.app_state.show_notification(
                    join2("Message validation failed: ", text.as_str()),
                    NotificationType::Error,
                    Some(5),
                );
                return HandlerCommand::Nothing;
            },
            Ok(()) => {},
        }
        match message {
            Message::Device(device_msg) => Self::handle_device_message(state, device_msg),
            Message::Ui(ui_msg) => Self::handle_ui_message(state, ui_msg),
            Message::DeviceOperationCompleted(result) => Self::handle_device_operation_completed(
                state,
                result,
            ),
            Message::Tick => Self::handle_tick(state),
        }
    }

    /// A successful general result with these texts.
    fn general(operation: &str, message: &str) -> (r: DeviceOperationResult)
        ensures
            general_is(r, operation@, message@),
    {
        DeviceOperationResult::GeneralResult {
            success: true,
            operation: copy_text(operation),
            message: Some(copy_text(message)),
            error: None,
        }
    }

    /// A successful parameter result with these texts.
    fn parameter(name: String, value: &str) -> (r: DeviceOperationResult)
        ensures
            parameter_is(r, name@, value@),
    {
        DeviceOperationResult::ParameterResult {
            success: true,
            parameter_name: name,
            value: Some(copy_text(value)),
            error: None,
        }
    }

    /// Marks the state busy with a device operation and asks for its work.
    fn handle_device_message(state: &mut UnifiedState, device_msg: DeviceMessage) -> (r: HandlerCommand)
        ensures
            device_effect(*old(state), *final(state), device_msg),
            command_for(device_msg, r),
    {
        let description = device_msg.get_description();
        state.set_busy(true, Some(description));
        match device_msg {
            DeviceMessage::Connect { port_name, auto_detect, verbose, optimize_transitions } => {
                state.set_connection_state(ConnectionState::Connecting);
                HandlerCommand::Connect { port_name, auto_detect, verbose, optimize_transitions }
            },
            DeviceMessage::Disconnect => {
                state.set_connection_state(ConnectionState::Disconnected);
                HandlerCommand::Deliver(DeviceHandlers::handle_disconnect())
            },
            DeviceMessage::FireStage { stage } => HandlerCommand::FireStage { stage },
            DeviceMessage::FireCustom { current } => HandlerCommand::FireCustom { current },
            DeviceMessage::SetArmCurrent { current } => HandlerCommand::SetArmCurrent { current },
            DeviceMessage::ArmDevice => HandlerCommand::ArmDevice,
            DeviceMessage::TurnOffDevice => {
                state.app_state.show_notification(
                    copy_text("Turning off device..."),
                    NotificationType::Info,
                    Some(2),
                );
                HandlerCommand::Deliver(
                    Self::general("Turn Off Device", "Device turned off successfully"),
                )
            },
            DeviceMessage::ShutdownDevice => {
                state.app_state.show_notification(
                    copy_text("Shutting down device..."),
                    NotificationType::Info,
                    Some(2),
                );
                HandlerCommand::Deliver(Self::general("Shutdown Device", "Device shutdown initiated"))
            },
            DeviceMessage::ReadDeviceStatus => HandlerCommand::ReadDeviceStatus,
            DeviceMessage::ReadDeviceInfo => HandlerCommand::Deliver(
                Self::general("Read Device Info", "Device information retrieved"),
            ),
            DeviceMessage::ReadArmCurrent => HandlerCommand::Deliver(
                Self::parameter(copy_text("ARM Current"), "1000mA"),
            ),
            DeviceMessage::ReadFireCurrent => HandlerCommand::Deliver(
                Self::parameter(copy_text("FIRE Current"), "2000mA"),
            ),
            DeviceMessage::ReadRemoteMode => HandlerCommand::Deliver(
                Self::general("Read Remote Mode", "Remote mode: On"),
            ),
            DeviceMessage::ReadStageParameters { stage } => {
                let name = text_then_number("Stage ", stage as u64).concat(" Parameters");
                HandlerCommand::Deliver(Self::parameter(name, "Parameters retrieved"))
            },
            DeviceMessage::RefreshParameters => {
                state.device_state.invalidate_cache();
                HandlerCommand::ReadDeviceStatus
            },
        }
    }

    /// How a UI message changes the state.
    pub open spec fn ui_effect(old: UnifiedState, new: UnifiedState, u: UiMessage) -> bool {
        match u {
            UiMessage::ViewChanged { view } => UiHandlers::view_changed_effect(old, new, view),
            UiMessage::InputUpdated { field_name, value } => UnifiedState::input_update(
                old,
                new,
                field_name@,
                value@,
            ),
            UiMessage::InputFocusChanged { field_name, focused } => UiHandlers::focus_effect(
                old,
                new,
                field_name@,
                focused,
            ),
            UiMessage::ErrorDismissed => UiHandlers::error_dismissed_effect(old, new),
            UiMessage::NotificationDismissed => UiHandlers::notification_dismissed_effect(old, new),
            UiMessage::ShowNotification { message, notification_type, auto_dismiss } => {
                UiHandlers::show_notification_effect(
                    old,
                    new,
                    message,
                    notification_type,
                    auto_dismiss,
                )
            },
            UiMessage::RefreshRequested => UiHandlers::refresh_effect(old, new),
            UiMessage::SettingChanged { setting_name, value } => UiHandlers::setting_effect(
                old,
                new,
                setting_name@,
                value@,
            ),
            UiMessage::LayoutModeChanged { compact } => UiHandlers::layout_effect(old, new, compact),
            UiMessage::ThemeChanged { theme_name } => UiHandlers::setting_effect(
                old,
                new,
                "theme"@,
                theme_name@,
            ),
            UiMessage::WindowResized { .. } => new == old,
            UiMessage::Tick => UiHandlers::tick_effect(old, new),
            UiMessage::ClearAllInputs => UiHandlers::clear_inputs_effect(old, new),
            UiMessage::ResetState => UiHandlers::reset_effect(old, new),
            UiMessage::ToggleVerbose => {
                &&& new.device_state == (DeviceState {
                    verbose: !old.device_state.verbose,
                    ..old.device_state
                })
                &&& new.app_state == (AppState {
                    notifications: new.app_state.notifications,
                    ..old.app_state
                })
                &&& notice(
                    new.app_state.notifications,
                    "Verbose mode "@ + if new.device_state.verbose {
                        "enabled"@
                    } else {
                        "disabled"@
                    },
                    NotificationType::Info,
                    2,
                )
            },
            UiMessage::ToggleOptimization => {
                &&& new.device_state == (DeviceState {
                    optimize_transitions: !old.device_state.optimize_transitions,
                    ..old.device_state
                })
                &&& new.app_state == (AppState {
                    notifications: new.app_state.notifications,
                    ..old.app_state
                })
                &&& notice(
                    new.app_state.notifications,
                    "Optimization "@ + if new.device_state.optimize_transitions {
                        "enabled"@
                    } else {
                        "disabled"@
                    },
                    NotificationType::Info,
                    2,
                )
            },
        }
    }

    /// Routes a UI message to its handler.
    fn handle_ui_message(state: &mut UnifiedState, ui_msg: UiMessage) -> (r: HandlerCommand)
        ensures
            r == HandlerCommand::Nothing,
            Self::ui_effect(*old(state), *final(state), ui_msg),
    {
        match ui_msg {
            UiMessage::ViewChanged { view } => UiHandlers::handle_view_changed(state, view),
            UiMessage::InputUpdated { field_name, value } => UiHandlers::handle_input_updated(
                state,
                field_name,
                value,
            ),
            UiMessage::InputFocusChanged { field_name, focused } => {
                UiHandlers::handle_input_focus_changed(state, field_name, focused)
            },
            UiMessage::ErrorDismissed => UiHandlers::handle_error_dismissed(state),
            UiMessage::NotificationDismissed => UiHandlers::handle_notification_dismissed(state),
            UiMessage::ShowNotification { message, notification_type, auto_dismiss } => {
                UiHandlers::handle_show_notification(state, message, notification_type, auto_dismiss)
            },
            UiMessage::RefreshRequested => UiHandlers::handle_refresh_requested(state),
            UiMessage::SettingChanged { setting_name, value } => UiHandlers::handle_setting_changed(
                state,
                setting_name,
                value,
            ),
            UiMessage::LayoutModeChanged { compact } => UiHandlers::handle_layout_mode_changed(
                state,
                compact,
            ),
            UiMessage::ThemeChanged { theme_name } => UiHandlers::handle_setting_changed(
                state,
                copy_text("theme"),
                theme_name,
            ),
            UiMessage::WindowResized { width: _, height: _ } => {},
            UiMessage::Tick => UiHandlers::handle_tick(state),
            UiMessage::ClearAllInputs => UiHandlers::handle_clear_all_inputs(state),
            UiMessage::ResetState => UiHandlers::handle_reset_state(state),
            UiMessage::ToggleVerbose => {
                state.device_state.verbose = !state.device_state.verbose;
                let text = if state.device_state.verbose {
                    join2("Verbose mode ", "enabled")
                } else {
                    join2("Verbose mode ", "disabled")
                };
                state.app_state.show_notification(text, NotificationType::Info, Some(2));
            },
            UiMessage::ToggleOptimization => {
                state.device_state.optimize_transitions = !state.device_state.optimize_transitions;
                let text = if state.device_state.optimize_transitions {
                    join2("Optimization ", "enabled")
                } else {
                    join2("Optimization ", "disabled")
                };
                state.app_state.show_notification(text, NotificationType::Info, Some(2));
            },
        }
        HandlerCommand::Nothing
    }

    /// Records a completed operation: the state is no longer busy, connection
    /// results set the connection, parameter and status results refresh the
    /// cache or record their error, and the outcome is shown.
    fn handle_device_operation_completed(
        state: &mut UnifiedState,
        result: DeviceOperationResult,
    ) -> (r: HandlerCommand)
        ensures
            r == HandlerCommand::Nothing,
            completion_effect(*old(state), *final(state), result),
    {
        state.set_busy(false, None);
        match &result {
            DeviceOperationResult::ConnectionResult { success, port_name, device_info, error } => {
                if *success {
                    state.set_connection_state(ConnectionState::Connected);
                    match port_name {
                        Some(port) => {
                            state.device_state.port_name = Some(port.clone());
                        },
                        None => {},
                    }
                    match device_info {
                        Some(info) => {
                            state.device_state.update_device_info(info.duplicate());
                        },
                        None => {},
                    }
                } else {
                    let error_msg = match error {
                        Some(e) => e.clone(),
                        None => copy_text("Unknown connection error"),
                    };
                    state.set_connection_state(ConnectionState::Failed(error_msg));
                }
            },
            DeviceOperationResult::ParameterResult { success, parameter_name, value, error } => {
                if *success {
                    if texts_equal(parameter_name.as_str(), "ARM Current") {
                        match value {
                            Some(val_str) => {
                                let chars = text_chars(val_str.as_str());
                                let digits = strip_milliamps(&chars);
                                match parse_unsigned_chars(&digits, 65535) {
                                    Some(current) => {
                                        state.device_state.update_arm_current(current as u16);
                                    },
                                    None => {},
                                }
                            },
                            None => {},
                        }
                    }
                } else {
                    match error {
                        Some(err) => {
                            state.device_state.set_error(err.clone());
                        },
                        None => {},
                    }
                }
            },
            DeviceOperationResult::StatusResult {
                success,
                device_mode,
                arm_current,
                fire_current,
                error,
            } => {
                if *success {
                    match device_mode {
                        Some(mode) => state.device_state.update_remote_mode(*mode),
                        None => {},
                    }
                    match arm_current {
                        Some(arm) => state.device_state.update_arm_current(*arm),
                        None => {},
                    }
                    match fire_current {
                        Some(fire) => state.device_state.update_fire_current(*fire),
                        None => {},
                    }
                } else {
                    match error {
                        Some(err) => {
                            state.device_state.set_error(err.clone());
                        },
                        None => {},
                    }
                }
            },
            _ => {},
        }
        let success = result.is_success();
        let message = match result.get_success_message() {
            Some(m) => m,
            None => match result.get_error() {
                Some(e) => copy_text(e),
                None => copy_text("Operation completed"),
            },
        };
        state.set_operation_result(success, message);
        HandlerCommand::Nothing
    }

    /// One periodic update.
    fn handle_tick(state: &mut UnifiedState) -> (r: HandlerCommand)
        ensures
            r == HandlerCommand::Nothing,
            final(state).device_state == old(state).device_state,
            final(state).app_state == (AppState {
                notifications: old(state).app_state.notifications.ticked(),
                ..old(state).app_state
            }),
    {
        state.update();
        HandlerCommand::Nothing
    }
}

} // verus!
