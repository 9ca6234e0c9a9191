//! UI handlers: the immediate state updates that UI messages make.

use vstd::prelude::*;
use vstd::string::*;

use crate::app_state::{AppState, AppView, NotificationState, NotificationType};
use crate::device_state::{CachedParameters, DeviceState};
use crate::text::{
    copy_text, decimal, join2, parse_u32_text, parse_unsigned, reads_true, text_reads_true,
    text_with_number, texts_equal,
};
use crate::unified_state::UnifiedState;

verus! {

/// The notification state that shows `text` with the given type and timer.
pub open spec fn notice(n: NotificationState, text: Seq<char>, t: NotificationType, timer: u32) -> bool {
    n.showing(text, t, Some(timer))
}

/// The device state with the parameter cache marked stale.
pub open spec fn stale(d: DeviceState) -> DeviceState {
    DeviceState { cached_parameters: CachedParameters { last_update: None, ..d.cached_parameters }, ..d }
}

/// The notification state with nothing shown.
pub open spec fn dismissed(n: NotificationState) -> NotificationState {
    NotificationState { message: None, visible: false, auto_dismiss_timer: None, ..n }
}

/// The application state with another notification state.
pub open spec fn with_notice(a: AppState, n: NotificationState) -> AppState {
    AppState { notifications: n, ..a }
}

/// The notification a setting change shows: its text, type and timer.
pub open spec fn setting_notice(setting_name: Seq<char>, value: Seq<char>) -> (Seq<char>, NotificationType) {
    if setting_name == "auto_refresh_interval"@ {
        match parse_unsigned(value, 4294967295) {
            Some(v) => (
                "Auto-refresh interval set to "@ + decimal(v) + " seconds"@,
                NotificationType::Success,
            ),
            None => ("Invalid auto-refresh interval value"@, NotificationType::Error),
        }
    } else if setting_name == "show_confirmations"@ {
        (
            "Confirmation dialogs "@ + if reads_true(value) {
                "enabled"@
            } else {
                "disabled"@
            },
            NotificationType::Success,
        )
    } else if setting_name == "theme"@ {
        ("Theme changed to "@ + value, NotificationType::Success)
    } else {
        ("Unknown setting: "@ + setting_name, NotificationType::Warning)
    }
}

/// UI state update handlers.
pub struct UiHandlers;

impl UiHandlers {
    /// How `handle_view_changed` changes the state.
    pub open spec fn view_changed_effect(old: UnifiedState, new: UnifiedState, view: AppView) -> bool {
        &&& (new.app_state == (AppState {
                current_view: view,
                notifications: dismissed(old.app_state.notifications),
                ..old.app_state
            }))
        &&& ((view == AppView::DeviceInfo && old.connected()) ==> new.device_state
                == stale(old.device_state))
        &&& (!(view == AppView::DeviceInfo && old.connected()) ==> new.device_state
                == old.device_state)
    }

    /// How `handle_input_focus_changed` changes the state.
    pub open spec fn focus_effect(old: UnifiedState, new: UnifiedState, field_name: Seq<char>, focused: bool) -> bool {
        &&& (new.device_state == old.device_state)
        &&& (new.app_state.same_except_fields(&old.app_state))
        &&& (old.app_state.field(field_name) is None ==> new.app_state.input_fields
                == old.app_state.input_fields)
        &&& (old.app_state.field(field_name) matches Some(f0) ==> (new.app_state.field(field_name) matches Some(f) && f.focused == focused && f.value
                == f0.value && f.modified == f0.modified && f.valid == f0.valid
                && f.validation_message == f0.validation_message))
        &&& (forall|other: Seq<char>|
                other != field_name ==> #[trigger] new.app_state.field(other) == old.app_state.field(other))
    }

    /// How `handle_error_dismissed` changes the state.
    pub open spec fn error_dismissed_effect(old: UnifiedState, new: UnifiedState) -> bool {
        &&& (new.device_state == (DeviceState { last_error: None, ..old.device_state }))
        &&& (new.app_state.validation.is_clear())
        &&& (old.app_state.current_view == AppView::Error ==> new.app_state.current_view == AppView::Main)
        &&& (old.app_state.current_view != AppView::Error ==> new.app_state.current_view == old.app_state.current_view)
        &&& (new.app_state.notifications == old.app_state.notifications)
        &&& (new.app_state.input_fields == old.app_state.input_fields)
        &&& (new.app_state.busy == old.app_state.busy)
        &&& (new.app_state.last_operation_success == old.app_state.last_operation_success)
        &&& (new.app_state.settings == old.app_state.settings)
    }

    /// How `handle_notification_dismissed` changes the state.
    pub open spec fn notification_dismissed_effect(old: UnifiedState, new: UnifiedState) -> bool {
        &&& (new.app_state == with_notice(
                old.app_state,
                dismissed(old.app_state.notifications),
            ))
        &&& (new.device_state == old.device_state)
    }

    /// How `handle_show_notification` changes the state.
    pub open spec fn show_notification_effect(old: UnifiedState, new: UnifiedState, message: String, notification_type: NotificationType, auto_dismiss: Option<u32>) -> bool {
        &&& (new.app_state == with_notice(
                old.app_state,
                (NotificationState {
                    message: Some(message),
                    notification_type,
                    visible: true,
                    auto_dismiss_timer: auto_dismiss,
                }),
            ))
        &&& (new.device_state == old.device_state)
    }

    /// How `handle_refresh_requested` changes the state.
    pub open spec fn refresh_effect(old: UnifiedState, new: UnifiedState) -> bool {
        &&& (new.device_state == stale(old.device_state))
        &&& (new.app_state == with_notice(
                old.app_state,
                new.app_state.notifications,
            ))
        &&& (old.connected() ==> notice(
                new.app_state.notifications,
                "Refreshing device status..."@,
                NotificationType::Info,
                2,
            ))
        &&& (!old.connected() ==> notice(
                new.app_state.notifications,
                "No device connected to refresh"@,
                NotificationType::Warning,
                3,
            ))
    }

    /// How `handle_setting_changed` changes the state.
    pub open spec fn setting_effect(old: UnifiedState, new: UnifiedState, setting_name: Seq<char>, value: Seq<char>) -> bool {
        &&& (new.device_state == old.device_state)
        &&& (new.app_state.current_view == old.app_state.current_view)
        &&& (new.app_state.validation == old.app_state.validation)
        &&& (new.app_state.input_fields == old.app_state.input_fields)
        &&& (new.app_state.busy == old.app_state.busy)
        &&& (new.app_state.last_operation_success == old.app_state.last_operation_success)
        &&& (notice(
                new.app_state.notifications,
                setting_notice(setting_name, value).0,
                setting_notice(setting_name, value).1,
                3,
            ))
        &&& (setting_name == "auto_refresh_interval"@ ==> {
                &&& parse_unsigned(value, 4294967295) matches Some(v) ==> new.app_state.settings.auto_refresh_interval == v
                &&& parse_unsigned(value, 4294967295) is None ==> new.app_state.settings.auto_refresh_interval == old.app_state.settings.auto_refresh_interval
                &&& new.app_state.settings.show_confirmations == old.app_state.settings.show_confirmations
                &&& new.app_state.settings.theme == old.app_state.settings.theme
            })
        &&& (setting_name == "show_confirmations"@ ==> {
                &&& new.app_state.settings.show_confirmations == reads_true(value)
                &&& new.app_state.settings.auto_refresh_interval == old.app_state.settings.auto_refresh_interval
                &&& new.app_state.settings.theme == old.app_state.settings.theme
            })
        &&& (setting_name == "theme"@ ==> {
                &&& new.app_state.settings.theme@ == value
                &&& new.app_state.settings.auto_refresh_interval == old.app_state.settings.auto_refresh_interval
                &&& new.app_state.settings.show_confirmations == old.app_state.settings.show_confirmations
            })
        &&& ((setting_name != "auto_refresh_interval"@ && setting_name != "show_confirmations"@
                && setting_name != "theme"@) ==> new.app_state.settings == old.app_state.settings)
        &&& (new.app_state.settings.compact_layout == old.app_state.settings.compact_layout)
    }

    /// How `handle_layout_mode_changed` changes the state.
    pub open spec fn layout_effect(old: UnifiedState, new: UnifiedState, compact: bool) -> bool {
        &&& (new.device_state == old.device_state)
        &&& (new.app_state.settings.compact_layout == compact)
        &&& (new.app_state.settings.auto_refresh_interval == old.app_state.settings.auto_refresh_interval)
        &&& (new.app_state.settings.show_confirmations == old.app_state.settings.show_confirmations)
        &&& (new.app_state.settings.theme == old.app_state.settings.theme)
        &&& (new.app_state.current_view == old.app_state.current_view)
        &&& (new.app_state.validation == old.app_state.validation)
        &&& (new.app_state.input_fields == old.app_state.input_fields)
        &&& (new.app_state.busy == old.app_state.busy)
        &&& (new.app_state.last_operation_success == old.app_state.last_operation_success)
        &&& (notice(
                new.app_state.notifications,
                "Layout changed to "@ + if compact {
                    "compact"@
                } else {
                    "normal"@
                },
                NotificationType::Info,
                2,
            ))
    }

    /// How `handle_tick` changes the state.
    pub open spec fn tick_effect(old: UnifiedState, new: UnifiedState) -> bool {
        &&& (new.app_state == with_notice(
                old.app_state,
                old.app_state.notifications.ticked(),
            ))
        &&& (new.device_state == old.device_state)
    }

    /// How `handle_clear_all_inputs` changes the state.
    pub open spec fn clear_inputs_effect(old: UnifiedState, new: UnifiedState) -> bool {
        &&& (new.device_state == old.device_state)
        &&& (new.app_state.validation.is_clear())
        &&& (new.app_state.input_fields@.len() == old.app_state.input_fields@.len())
        &&& (forall|i: int|
                0 <= i < new.app_state.input_fields@.len() ==> {
                    let e = #[trigger] new.app_state.input_fields@[i];
                    let e0 = old.app_state.input_fields@[i];
                    &&& e.name == e0.name
                    &&& e.field.value@.len() == 0
                    &&& !e.field.modified
                    &&& e.field.valid
                    &&& e.field.validation_message is None
                    &&& e.field.focused == e0.field.focused
                })
        &&& (new.app_state.current_view == old.app_state.current_view)
        &&& (new.app_state.busy == old.app_state.busy)
        &&& (new.app_state.last_operation_success == old.app_state.last_operation_success)
        &&& (new.app_state.settings == old.app_state.settings)
        &&& (notice(
                new.app_state.notifications,
                "All input fields cleared"@,
                NotificationType::Info,
                2,
            ))
    }

    /// How `handle_reset_state` changes the state.
    pub open spec fn reset_effect(old: UnifiedState, new: UnifiedState) -> bool {
        &&& (new.app_state.current_view == AppView::Main)
        &&& (new.app_state.validation.is_clear())
        &&& (new.app_state.input_fields@.len() == old.app_state.input_fields@.len())
        &&& (forall|i: int|
                0 <= i < new.app_state.input_fields@.len() ==> {
                    let e = #[trigger] new.app_state.input_fields@[i];
                    let e0 = old.app_state.input_fields@[i];
                    &&& e.name == e0.name
                    &&& e.field.value@.len() == 0
                    &&& !e.field.modified
                    &&& e.field.valid
                    &&& e.field.validation_message is None
                    &&& e.field.focused == e0.field.focused
                })
        &&& (new.device_state.cached_parameters.is_empty())
        &&& (new.device_state.cached_parameters.cache_duration
            == old.device_state.cached_parameters.cache_duration)
        &&& (new.device_state.last_error is None)
        &&& (new.device_state.connection_state == old.device_state.connection_state)
        &&& (new.device_state.operation_state == old.device_state.operation_state)
        &&& (new.device_state.same_config(&old.device_state))
        &&& (new.app_state.busy == old.app_state.busy)
        &&& (new.app_state.last_operation_success == old.app_state.last_operation_success)
        &&& (new.app_state.settings == old.app_state.settings)
        &&& (notice(
                new.app_state.notifications,
                "Application state reset"@,
                NotificationType::Info,
                3,
            ))
    }

    /// Shows another view and dismisses the notification; the device
    /// information view marks the parameter cache stale while connected.
    pub fn handle_view_changed(state: &mut UnifiedState, view: AppView)
        ensures
            Self::view_changed_effect(*old(state), *final(state), view),
    {
        state.app_state.set_view(view);
        state.app_state.hide_notification();
        match view {
            AppView::DeviceInfo => {
                if state.is_device_connected() {
                    state.device_state.invalidate_cache();
                }
            },
            _ => {},
        }
    }

    /// Updates an input field with validation. The update never fails, so no
    /// notification is shown.
    pub fn handle_input_updated(state: &mut UnifiedState, field_name: String, value: String)
        ensures
            UnifiedState::input_update(*old(state), *final(state), field_name@, value@),
    {
        match state.update_input_field(field_name.as_str(), value) {
            Ok(()) => {},
            Err(error) => {
                let text = error.to_display_string();
                state.app_state.show_notification(
                    join2("Validation error: ", text.as_str()),
                    NotificationType::Error,
                    Some(5),
                );
            },
        }
    }

    /// Sets the focus of a field, if the field exists.
    pub fn handle_input_focus_changed(state: &mut UnifiedState, field_name: String, focused: bool)
        ensures
            Self::focus_effect(*old(state), *final(state), field_name@, focused),
    {
        state.app_state.set_input_field_focus(field_name.as_str(), focused);
    }

    /// Clears the last error and the validation errors, and leaves the error
    /// view for the main view.
    pub fn handle_error_dismissed(state: &mut UnifiedState)
        ensures
            Self::error_dismissed_effect(*old(state), *final(state)),
    {
        state.device_state.clear_error();
        state.app_state.validation.clear_all();
        if state.app_state.current_view == AppView::Error {
            state.app_state.set_view(AppView::Main);
        }
    }

    /// Dismisses the notification.
    pub fn handle_notification_dismissed(state: &mut UnifiedState)
        ensures
            Self::notification_dismissed_effect(*old(state), *final(state)),
    {
        state.app_state.hide_notification();
    }

    /// Shows a notification.
    pub fn handle_show_notification(
        state: &mut UnifiedState,
        message: String,
        notification_type: NotificationType,
        auto_dismiss: Option<u32>,
    )
        ensures
            Self::show_notification_effect(*old(state), *final(state), message, notification_type, auto_dismiss),
    {
        state.app_state.show_notification(message, notification_type, auto_dismiss);
    }

    /// Marks the parameter cache stale and says whether a refresh follows.
    pub fn handle_refresh_requested(state: &mut UnifiedState)
        ensures
            Self::refresh_effect(*old(state), *final(state)),
    {
        state.device_state.invalidate_cache();
        if state.is_device_connected() {
            state.app_state.show_notification(
                copy_text("Refreshing device status..."),
                NotificationType::Info,
                Some(2),
            );
        } else {
            state.app_state.show_notification(
                copy_text("No device connected to refresh"),
                NotificationType::Warning,
                Some(3),
            );
        }
    }

    /// Applies a setting: `auto_refresh_interval` takes a number of seconds,
    /// `show_confirmations` is on when the value reads `true` in any case, and
    /// `theme` takes the value. A notification tells the outcome.
    pub fn handle_setting_changed(state: &mut UnifiedState, setting_name: String, value: String)
        ensures
            Self::setting_effect(*old(state), *final(state), setting_name@, value@),
    {
        proof {
            reveal_strlit("auto_refresh_interval");
            reveal_strlit("show_confirmations");
            reveal_strlit("theme");
            assert("auto_refresh_interval"@.len() != "show_confirmations"@.len());
            assert("auto_refresh_interval"@.len() != "theme"@.len());
            assert("show_confirmations"@.len() != "theme"@.len());
        }
        if texts_equal(setting_name.as_str(), "auto_refresh_interval") {
            match parse_u32_text(value.as_str()) {
                Some(interval) => {
                    state.app_state.settings.auto_refresh_interval = interval;
                    state.app_state.show_notification(
                        text_with_number("Auto-refresh interval set to ", interval as u64, " seconds"),
                        NotificationType::Success,
                        Some(3),
                    );
                },
                None => {
                    state.app_state.show_notification(
                        copy_text("Invalid auto-refresh interval value"),
                        NotificationType::Error,
                        Some(3),
                    );
                },
            }
        } else if texts_equal(setting_name.as_str(), "show_confirmations") {
            let on = text_reads_true(value.as_str());
            state.app_state.settings.show_confirmations = on;
            let text = if on {
                join2("Confirmation dialogs ", "enabled")
            } else {
                join2("Confirmation dialogs ", "disabled")
            };
            state.app_state.show_notification(text, NotificationType::Success, Some(3));
        } else if texts_equal(setting_name.as_str(), "theme") {
            let text = join2("Theme changed to ", value.as_str());
            state.app_state.settings.theme = value;
            state.app_state.show_notification(text, NotificationType::Success, Some(3));
        } else {
            state.app_state.show_notification(
                join2("Unknown setting: ", setting_name.as_str()),
                NotificationType::Warning,
                Some(3),
            );
        }
    }

    /// Switches between the compact and the normal layout.
    pub fn handle_layout_mode_changed(state: &mut UnifiedState, compact: bool)
        ensures
            Self::layout_effect(*old(state), *final(state), compact),
    {
        state.app_state.settings.compact_layout = compact;
        let text = if compact {
            join2("Layout changed to ", "compact")
        } else {
            join2("Layout changed to ", "normal")
        };
        state.app_state.show_notification(text, NotificationType::Info, Some(2));
    }

    /// One periodic update: the notification timer ticks.
    pub fn handle_tick(state: &mut UnifiedState)
        ensures
            Self::tick_effect(*old(state), *final(state)),
    {
        state.update();
    }

    /// Empties every input field and clears the validation errors.
    pub fn handle_clear_all_inputs(state: &mut UnifiedState)
        ensures
            Self::clear_inputs_effect(*old(state), *final(state)),
    {
        state.app_state.clear_all_inputs();
        state.app_state.validation.clear_all();
        state.app_state.show_notification(
            copy_text("All input fields cleared"),
            NotificationType::Info,
            Some(2),
        );
    }

    /// Clears the state, returns to the main view, and says so.
    pub fn handle_reset_state(state: &mut UnifiedState)
        ensures
            Self::reset_effect(*old(state), *final(state)),
    {
        state.clear();
        state.app_state.set_view(AppView::Main);
        state.app_state.show_notification(
            copy_text("Application state reset"),
            NotificationType::Info,
            Some(3),
        );
    }
}

} // verus!
