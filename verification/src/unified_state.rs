//! The unified GUI state: application state and device state together.

use vstd::prelude::*;
use vstd::string::*;

use crate::app_state::{AppState, AppView, NotificationType};
use crate::device_state::{CachedParameters, ConnectionState, DeviceState, OperationState};
use crate::error::LumidoxError;
use crate::text::{copy_text, join2, parse_u16_text, parse_unsigned, text_is_empty, texts_equal};

verus! {

/// The largest current, in mA, that the current inputs accept.
pub const MAX_INPUT_CURRENT: u16 = 5000;

/// Whether a current input is accepted: empty, or a number from 1 to 5000.
pub open spec fn current_input_accepted(v: Seq<char>) -> bool {
    v.len() == 0 || (parse_unsigned(v, 65535) matches Some(c) && 1 <= c <= 5000)
}

/// The message a rejected current input gets: a range message for a number
/// out of range (starting with `what`), a format message for anything else.
pub open spec fn current_input_message(v: Seq<char>, what: Seq<char>) -> Option<Seq<char>> {
    if current_input_accepted(v) {
        None
    } else if parse_unsigned(v, 65535) is Some {
        Some(what + " must be between 1 and 5000 mA"@)
    } else {
        Some("Invalid number format"@)
    }
}

/// Whether an optional text holds exactly the optional characters.
pub open spec fn opt_text_is(t: Option<String>, v: Option<Seq<char>>) -> bool {
    match (t, v) {
        (Some(s), Some(c)) => s@ == c,
        (None, None) => true,
        _ => false,
    }
}

/// Application UI state and device state together.
#[derive(Debug)]
pub struct UnifiedState {
    /// Application UI state.
    pub app_state: AppState,
    /// Device connection and status state.
    pub device_state: DeviceState,
}

impl UnifiedState {
    /// Whether the device is connected.
    pub open spec fn connected(&self) -> bool {
        self.device_state.connected()
    }

    /// Whether the application or the device is busy.
    pub open spec fn busy(&self) -> bool {
        self.app_state.busy || self.device_state.busy()
    }

    /// A new application state and a new device state.
    pub fn new() -> (r: Self)
        ensures
            r.device_state.is_initial(),
            r.device_state.port_name is None,
            !r.device_state.auto_detect,
            !r.device_state.verbose,
            r.device_state.optimize_transitions,
            r.app_state.current_view == crate::app_state::AppView::Main,
            !r.app_state.busy,
            r.app_state.notifications.hidden(),
    {
        UnifiedState { app_state: AppState::new(), device_state: DeviceState::new() }
    }

    /// A new state with the given device configuration.
    pub fn with_device_config(
        port_name: Option<String>,
        auto_detect: bool,
        verbose: bool,
        optimize_transitions: bool,
    ) -> (r: Self)
        ensures
            r.device_state.is_initial(),
            r.device_state.port_name == port_name,
            r.device_state.auto_detect == auto_detect,
            r.device_state.verbose == verbose,
            r.device_state.optimize_transitions == optimize_transitions,
            r.app_state.current_view == crate::app_state::AppView::Main,
            !r.app_state.busy,
            r.app_state.notifications.hidden(),
    {
        UnifiedState {
            app_state: AppState::new(),
            device_state: DeviceState::with_config(
                port_name,
                auto_detect,
                verbose,
                optimize_transitions,
            ),
        }
    }

    /// Whether the device is connected.
    pub fn is_device_connected(&self) -> (r: bool)
        ensures
            r == self.connected(),
    {
        self.device_state.is_connected()
    }

    /// Whether the application or the device is busy.
    pub fn is_busy(&self) -> (r: bool)
        ensures
            r == self.busy(),
    {
        self.app_state.busy || self.device_state.is_busy()
    }

    /// Sets the busy flag. Becoming busy with a named operation marks the device
    /// busy with it; becoming idle marks the device idle.
    pub fn set_busy(&mut self, busy: bool, operation: Option<String>)
        ensures
            final(self).app_state.busy == busy,
            final(self).app_state.current_view == old(self).app_state.current_view,
            final(self).app_state.notifications == old(self).app_state.notifications,
            final(self).app_state.validation == old(self).app_state.validation,
            final(self).app_state.input_fields == old(self).app_state.input_fields,
            final(self).app_state.settings == old(self).app_state.settings,
            final(self).app_state.last_operation_success == old(self).app_state.last_operation_success,
            busy && operation is Some ==> final(self).device_state.operation_state
                == OperationState::Busy(operation.unwrap()),
            busy && operation is None ==> final(self).device_state.operation_state == old(self).device_state.operation_state,
            !busy ==> final(self).device_state.operation_state == OperationState::Idle,
            final(self).device_state.connection_state == old(self).device_state.connection_state,
            final(self).device_state.cached_parameters == old(self).device_state.cached_parameters,
            final(self).device_state.last_error == old(self).device_state.last_error,
            final(self).device_state.same_config(&old(self).device_state),
    {
        self.app_state.set_busy(busy);
        if busy {
            match operation {
                Some(op) => self.device_state.set_operation_state(OperationState::Busy(op)),
                None => {},
            }
        } else {
            self.device_state.set_operation_state(OperationState::Idle);
        }
    }

    /// The notification that entering a connection state shows, if any.
    pub open spec fn connection_notice(state: ConnectionState) -> Option<(Seq<char>, NotificationType, u32)> {
        match state {
            ConnectionState::Connected => Some(
                ("Device connected successfully"@, NotificationType::Success, 3),
            ),
            ConnectionState::Failed(e) => Some(
                ("Connection failed: "@ + e@, NotificationType::Error, 5),
            ),
            ConnectionState::Disconnected => Some(
                ("Device disconnected"@, NotificationType::Warning, 3),
            ),
            _ => None,
        }
    }

    /// Sets the connection state and shows the notification that goes with it.
    pub fn set_connection_state(&mut self, state: ConnectionState)
        ensures
            final(self).device_state.connection_state == state,
            DeviceState::clears_cache(state) ==> final(self).device_state.cached_parameters.is_empty(),
            !DeviceState::clears_cache(state) ==> final(self).device_state.cached_parameters == old(self).device_state.cached_parameters,
            final(self).device_state.cached_parameters.cache_duration == old(self).device_state.cached_parameters.cache_duration,
            final(self).device_state.operation_state == old(self).device_state.operation_state,
            final(self).device_state.last_error == old(self).device_state.last_error,
            final(self).device_state.same_config(&old(self).device_state),
            Self::connection_notice(state) matches Some(n) ==> final(self).app_state.notifications.showing(n.0, n.1, Some(n.2)),
            Self::connection_notice(state) is None ==> final(self).app_state.notifications == old(self).app_state.notifications,
            final(self).app_state.current_view == old(self).app_state.current_view,
            final(self).app_state.validation == old(self).app_state.validation,
            final(self).app_state.input_fields == old(self).app_state.input_fields,
            final(self).app_state.busy == old(self).app_state.busy,
            final(self).app_state.last_operation_success == old(self).app_state.last_operation_success,
            final(self).app_state.settings == old(self).app_state.settings,
    {
        self.device_state.set_connection_state(state);
        match &self.device_state.connection_state {
            ConnectionState::Connected => {
                self.app_state.show_notification(
                    copy_text("Device connected successfully"),
                    NotificationType::Success,
                    Some(3),
                );
            },
            ConnectionState::Failed(error) => {
                let text = join2("Connection failed: ", error.as_str());
                self.app_state.show_notification(text, NotificationType::Error, Some(5));
            },
            ConnectionState::Disconnected => {
                self.app_state.show_notification(
                    copy_text("Device disconnected"),
                    NotificationType::Warning,
                    Some(3),
                );
            },
            _ => {},
        }
    }

    /// Records an operation's outcome: the device's operation state, the last
    /// operation flag, and a notification.
    pub fn set_operation_result(&mut self, success: bool, message: String)
        ensures
            final(self).app_state.last_operation_success == Some(success),
            success ==> final(self).device_state.operation_state == OperationState::Success(
                message,
            ),
            !success ==> final(self).device_state.operation_state == OperationState::Failed(
                message,
            ),
            success ==> final(self).app_state.notifications.showing(
                message@,
                NotificationType::Success,
                Some(3),
            ),
            !success ==> final(self).app_state.notifications.showing(
                "Operation failed: "@ + message@,
                NotificationType::Error,
                Some(5),
            ),
            final(self).app_state.current_view == old(self).app_state.current_view,
            final(self).app_state.validation == old(self).app_state.validation,
            final(self).app_state.input_fields == old(self).app_state.input_fields,
            final(self).app_state.busy == old(self).app_state.busy,
            final(self).app_state.settings == old(self).app_state.settings,
            final(self).device_state.connection_state == old(self).device_state.connection_state,
            final(self).device_state.cached_parameters == old(self).device_state.cached_parameters,
            final(self).device_state.last_error == old(self).device_state.last_error,
            final(self).device_state.same_config(&old(self).device_state),
    {
        self.app_state.set_last_operation(success);
        if success {
            self.device_state.set_operation_state(OperationState::Success(message.clone()));
            self.app_state.show_notification(message, NotificationType::Success, Some(3));
        } else {
            self.device_state.set_operation_state(OperationState::Failed(message.clone()));
            let text = join2("Operation failed: ", message.as_str());
            self.app_state.show_notification(text, NotificationType::Error, Some(5));
        }
    }

    /// How `update_input_field` changes the state: the field holds the value,
    /// a current field is validated, everything else stays.
    pub open spec fn input_update(old: UnifiedState, new: UnifiedState, field_name: Seq<char>, value: Seq<char>) -> bool {
        &&& (new.app_state.field(field_name) matches Some(f) && f.value@ == value && f.modified)
        &&& (forall|other: Seq<char>|
                other != field_name ==> #[trigger] new.app_state.field(other) == old.app_state.field(other))
        &&& (field_name == "arm_current"@ ==> {
                &&& new.app_state.validation.arm_current_valid == current_input_accepted(
                    value,
                )
                &&& opt_text_is(
                    new.app_state.validation.arm_current_message,
                    current_input_message(value, "ARM current"@),
                )
                &&& new.app_state.validation.stage_current_valid == old.app_state.validation.stage_current_valid
                &&& new.app_state.validation.stage_current_message == old.app_state.validation.stage_current_message
                &&& new.app_state.validation.general_errors == old.app_state.validation.general_errors
            })
        &&& (field_name == "stage_current"@ ==> {
                &&& new.app_state.validation.stage_current_valid
                    == current_input_accepted(value)
                &&& opt_text_is(
                    new.app_state.validation.stage_current_message,
                    current_input_message(value, "Stage current"@),
                )
                &&& new.app_state.validation.arm_current_valid == old.app_state.validation.arm_current_valid
                &&& new.app_state.validation.arm_current_message == old.app_state.validation.arm_current_message
                &&& new.app_state.validation.general_errors == old.app_state.validation.general_errors
            })
        &&& (field_name != "arm_current"@ && field_name != "stage_current"@
                ==> new.app_state.validation == old.app_state.validation)
        &&& (new.app_state.current_view == old.app_state.current_view)
        &&& (new.app_state.notifications == old.app_state.notifications)
        &&& (new.app_state.busy == old.app_state.busy)
        &&& (new.app_state.last_operation_success == old.app_state.last_operation_success)
        &&& (new.app_state.settings == old.app_state.settings)
        &&& (new.device_state == old.device_state)
    }

    /// Updates an input field and validates it when it holds a current: the
    /// `arm_current` and `stage_current` fields accept an empty value or a
    /// number from 1 to 5000. Never fails.
    pub fn update_input_field(&mut self, field_name: &str, value: String) -> (r: Result<
        (),
        LumidoxError,
    >)
        ensures
            r is Ok,
            Self::input_update(*old(self), *final(self), field_name@, value@),
    {
        proof {
            reveal_strlit("arm_current");
            reveal_strlit("stage_current");
            assert("stage_current"@.len() != "arm_current"@.len());
        }
        let check = value.clone();
        self.app_state.update_input_field(field_name, value);
        let ghost mid = self.app_state.input_fields@;
        let ghost mid_app = self.app_state;
        if texts_equal(field_name, "arm_current") {
            let (valid, message) = Self::validate_current(check.as_str(), "ARM current");
            self.app_state.validation.set_arm_current_validation(valid, message);
        } else if texts_equal(field_name, "stage_current") {
            let (valid, message) = Self::validate_current(check.as_str(), "Stage current");
            self.app_state.validation.set_stage_current_validation(valid, message);
        }
        assert(self.app_state.input_fields@ == mid);
        assert forall|other: Seq<char>| other != field_name@ implies #[trigger] self.app_state.field(
            other,
        ) == old(self).app_state.field(other) by {
            assert(mid_app.field(other) == old(self).app_state.field(other));
        }
        Ok(())
    }

    /// The validity of a current input and its message.
    fn validate_current(value: &str, what: &str) -> (r: (bool, Option<String>))
        ensures
            r.0 == current_input_accepted(value@),
            opt_text_is(r.1, current_input_message(value@, what@)),
    {
        if text_is_empty(value) {
            return (true, None);
        }
        match parse_u16_text(value) {
            Some(current) => {
                if current > 0 && current <= MAX_INPUT_CURRENT {
                    (true, None)
                } else {
                    (false, Some(join2(what, " must be between 1 and 5000 mA")))
                }
            },
            None => (false, Some(copy_text("Invalid number format"))),
        }
    }

    /// The value of a field, or the empty text when there is no such field.
    pub open spec fn input_value(&self, name: Seq<char>) -> Seq<char> {
        match self.app_state.field(name) {
            Some(f) => f.value@,
            None => Seq::empty(),
        }
    }

    /// The ARM current input's value.
    pub fn get_arm_current_input(&self) -> (s: String)
        ensures
            s@ == self.input_value("arm_current"@),
    {
        match self.app_state.get_input_field("arm_current") {
            Some(field) => field.value.clone(),
            None => String::new(),
        }
    }

    /// The stage current input's value.
    pub fn get_stage_current_input(&self) -> (s: String)
        ensures
            s@ == self.input_value("stage_current"@),
    {
        match self.app_state.get_input_field("stage_current") {
            Some(field) => field.value.clone(),
            None => String::new(),
        }
    }

    /// The ARM current validation message.
    pub fn get_arm_current_validation(&self) -> (r: Option<&str>)
        ensures
            r is Some <==> self.app_state.validation.arm_current_message is Some,
            r matches Some(m) ==> m@ == self.app_state.validation.arm_current_message.unwrap()@,
    {
        match &self.app_state.validation.arm_current_message {
            Some(m) => Some(m.as_str()),
            None => None,
        }
    }

    /// The stage current validation message.
    pub fn get_stage_current_validation(&self) -> (r: Option<&str>)
        ensures
            r is Some <==> self.app_state.validation.stage_current_message is Some,
            r matches Some(m) ==> m@ == self.app_state.validation.stage_current_message.unwrap()@,
    {
        match &self.app_state.validation.stage_current_message {
            Some(m) => Some(m.as_str()),
            None => None,
        }
    }

    /// Whether no validation error exists.
    pub fn are_inputs_valid(&self) -> (r: bool)
        ensures
            r == !self.app_state.validation.errors(),
    {
        !self.app_state.validation.has_errors()
    }

    /// One periodic update.
    pub fn update(&mut self)
        ensures
            final(self).app_state.notifications == old(self).app_state.notifications.ticked(),
            final(self).app_state.current_view == old(self).app_state.current_view,
            final(self).app_state.validation == old(self).app_state.validation,
            final(self).app_state.input_fields == old(self).app_state.input_fields,
            final(self).app_state.busy == old(self).app_state.busy,
            final(self).app_state.last_operation_success == old(self).app_state.last_operation_success,
            final(self).app_state.settings == old(self).app_state.settings,
            final(self).device_state == old(self).device_state,
    {
        self.app_state.update();
    }

    /// Clears inputs, validation, the notification, the parameter cache and the
    /// last error.
    pub fn clear(&mut self)
        ensures
            final(self).app_state.validation.is_clear(),
            final(self).app_state.notifications.hidden(),
            final(self).app_state.input_fields@.len() == old(self).app_state.input_fields@.len(),
            forall|i: int|
                0 <= i < final(self).app_state.input_fields@.len() ==> {
                    let e = #[trigger] final(self).app_state.input_fields@[i];
                    let e0 = old(self).app_state.input_fields@[i];
                    &&& e.name == e0.name
                    &&& e.field.value@.len() == 0
                    &&& !e.field.modified
                    &&& e.field.valid
                    &&& e.field.validation_message is None
                    &&& e.field.focused == e0.field.focused
                },
            final(self).device_state.cached_parameters.is_empty(),
            final(self).device_state.cached_parameters.cache_duration == old(self).device_state.cached_parameters.cache_duration,
            final(self).device_state.last_error is None,
            final(self).device_state.connection_state == old(self).device_state.connection_state,
            final(self).device_state.operation_state == old(self).device_state.operation_state,
            final(self).device_state.same_config(&old(self).device_state),
            final(self).app_state.current_view == old(self).app_state.current_view,
            final(self).app_state.busy == old(self).app_state.busy,
            final(self).app_state.last_operation_success == old(self).app_state.last_operation_success,
            final(self).app_state.settings == old(self).app_state.settings,
    {
        self.app_state.clear_all_inputs();
        self.app_state.validation.clear_all();
        self.app_state.hide_notification();
        self.device_state.cached_parameters.clear_cache();
        self.device_state.clear_error();
    }

    /// The text that shows a device's identification.
    pub open spec fn device_info_text(i: crate::error::DeviceInfo) -> Seq<char> {
        "Model: "@ + i.model_number@ + " | Serial: "@ + i.serial_number@ + " | Firmware: "@
            + i.firmware_version@
    }

    /// The identification text the cache gives `elapsed` milliseconds after
    /// its last update.
    pub open spec fn device_info_display_at(&self, elapsed: nat) -> Option<Seq<char>> {
        match self.device_state.device_info_at(elapsed) {
            Some(i) => Some(Self::device_info_text(i)),
            None => None,
        }
    }

    /// The identification as text.
    fn info_line(info: &crate::error::DeviceInfo) -> (s: String)
        ensures
            s@ == Self::device_info_text(*info),
    {
        copy_text("Model: ").concat(info.model_number.as_str()).concat(" | Serial: ").concat(
            info.serial_number.as_str(),
        ).concat(" | Firmware: ").concat(info.firmware_version.as_str())
    }

    /// The cached device identification, as text, `elapsed_ms` milliseconds
    /// after the last update.
    pub fn get_device_info_display_after(&self, elapsed_ms: u128) -> (r: Option<String>)
        ensures
            opt_text_is(r, self.device_info_display_at(elapsed_ms as nat)),
    {
        match self.device_state.get_device_info_after(elapsed_ms) {
            Some(info) => Some(Self::info_line(info)),
            None => None,
        }
    }

    /// The cached device identification, as text, while the cache is valid
    /// by the clock.
    pub fn get_device_info_display(&self) -> (r: Option<String>)
        ensures
            exists|e: nat| opt_text_is(r, self.device_info_display_at(e)),
            r matches Some(s) ==> (self.device_state.cached_parameters.device_info matches Some(i)
                && s@ == Self::device_info_text(i)),
            self.device_state.cached_parameters.last_update is None ==> r is None,
            self.device_state.cached_parameters.device_info is None ==> r is None,
    {
        let e = self.device_state.cached_parameters.age_ms();
        let r = self.get_device_info_display_after(e);
        assert(opt_text_is(r, self.device_info_display_at(e as nat)));
        r
    }

    /// The connection status text.
    pub fn get_connection_status_display(&self) -> (s: String)
        ensures
            s@ == DeviceState::connection_text(self.device_state.connection_state),
    {
        self.device_state.get_connection_description()
    }

    /// The operation status text.
    pub fn get_operation_status_display(&self) -> (s: String)
        ensures
            s@ == DeviceState::operation_text(self.device_state.operation_state),
    {
        self.device_state.get_operation_description()
    }
}

/// How synchronizing with a device changes a state, `elapsed` milliseconds
/// after the cache's last update: with a device present, a connected state
/// whose cache is no longer valid gets its cache marked stale; nothing else
/// changes.
pub open spec fn synced_at(old: UnifiedState, new: UnifiedState, device_present: bool, elapsed: nat) -> bool {
    &&& new.app_state == old.app_state
    &&& new.device_state == if device_present && old.device_state.needs_refresh_at(elapsed) {
        old.device_state.stale()
    } else {
        old.device_state
    }
}

/// How synchronizing with a device may change a state: nothing changes but,
/// with a device present and connected, the cache may be marked stale; a
/// cache with no validity period always is.
pub open spec fn synchronized(old: UnifiedState, new: UnifiedState, device_present: bool) -> bool {
    &&& new.app_state == old.app_state
    &&& (new.device_state == old.device_state || (device_present && old.connected()
        && new.device_state == (DeviceState {
        cached_parameters: (CachedParameters {
            last_update: None,
            ..old.device_state.cached_parameters
        }),
        ..old.device_state
    })))
    &&& (device_present && old.connected() && old.device_state.cached_parameters.cache_duration
        == 0) ==> new.device_state.cached_parameters.last_update is None
}

/// State management utilities.
pub struct StateManager;

impl StateManager {
    /// The initial state for the given configuration.
    pub fn create_initial_state(
        port_name: Option<String>,
        auto_detect: bool,
        verbose: bool,
        optimize_transitions: bool,
    ) -> (r: UnifiedState)
        ensures
            r.device_state.is_initial(),
            r.device_state.port_name == port_name,
            r.device_state.auto_detect == auto_detect,
            r.device_state.verbose == verbose,
            r.device_state.optimize_transitions == optimize_transitions,
            r.app_state.current_view == crate::app_state::AppView::Main,
            !r.app_state.busy,
            r.app_state.notifications.hidden(),
    {
        UnifiedState::with_device_config(port_name, auto_detect, verbose, optimize_transitions)
    }

    /// Checks that a connected state is not at the same time disconnected,
    /// which no state can be: the check always passes.
    pub fn validate_state_consistency(state: &UnifiedState) -> (r: Result<(), LumidoxError>)
        ensures
            r is Ok,
    {
        let disconnected = match &state.device_state.connection_state {
            ConnectionState::Disconnected => true,
            _ => false,
        };
        if state.device_state.is_connected() && disconnected {
            return Err(
                LumidoxError::InvalidState(
                    copy_text("Device state inconsistency: connected but state is disconnected"),
                ),
            );
        }
        Ok(())
    }

    /// Synchronizes the state with a device `elapsed_ms` milliseconds after
    /// the cache's last update. Never fails.
    pub fn synchronize_with_device_after(state: &mut UnifiedState, device_present: bool, elapsed_ms: u128) -> (r: Result<(), LumidoxError>)
        ensures
            r is Ok,
            synced_at(*old(state), *final(state), device_present, elapsed_ms as nat),
    {
        if device_present {
            if state.device_state.needs_cache_refresh_after(elapsed_ms) {
                state.device_state.invalidate_cache();
            }
        }
        Ok(())
    }

    /// Synchronizes the state with a device: with a device present and the
    /// cache in need of a refresh by the clock, the cache is marked stale.
    /// Never fails.
    pub fn synchronize_with_device(state: &mut UnifiedState, device_present: bool) -> (r: Result<
        (),
        LumidoxError,
    >)
        ensures
            r is Ok,
            exists|e: nat| synced_at(*old(state), *final(state), device_present, e),
            synchronized(*old(state), *final(state), device_present),
            final(state).app_state == old(state).app_state,
            final(state).device_state.connection_state == old(state).device_state.connection_state,
            final(state).device_state.operation_state == old(state).device_state.operation_state,
            final(state).device_state.last_error == old(state).device_state.last_error,
            final(state).device_state.same_config(&old(state).device_state),
            final(state).device_state.cached_parameters.arm_current == old(state).device_state.cached_parameters.arm_current,
            final(state).device_state.cached_parameters.fire_current == old(state).device_state.cached_parameters.fire_current,
            final(state).device_state.cached_parameters.remote_mode == old(state).device_state.cached_parameters.remote_mode,
            final(state).device_state.cached_parameters.device_info == old(state).device_state.cached_parameters.device_info,
            !device_present ==> final(state).device_state == old(state).device_state,
            !old(state).connected() ==> final(state).device_state == old(state).device_state,
            final(state).device_state.cached_parameters.last_update is Some ==> final(state).device_state.cached_parameters.last_update == old(state).device_state.cached_parameters.last_update,
    {
        let e = state.device_state.cached_parameters.age_ms();
        let r = Self::synchronize_with_device_after(state, device_present, e);
        assert(synced_at(*old(state), *state, device_present, e as nat));
        r
    }
}


impl Default for UnifiedState {
    /// A new application state and a new device state.
    fn default() -> (r: Self)
        ensures
            r.device_state.is_initial(),
            r.device_state.port_name is None,
            !r.device_state.auto_detect,
            !r.device_state.verbose,
            r.device_state.optimize_transitions,
            r.app_state.current_view == AppView::Main,
            !r.app_state.busy,
            r.app_state.notifications.hidden(),
    {
        UnifiedState::new()
    }
}

} // verus!
