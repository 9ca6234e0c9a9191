//! User interface interaction messages, their priorities and categories.

use vstd::prelude::*;
use vstd::string::*;

use crate::app_state::{AppView, NotificationType};
use crate::text::{copy_text, decimal, join2, text_then_number};

verus! {

/// UI interaction messages.
#[derive(Debug)]
pub enum UiMessage {
    /// The view changed.
    ViewChanged { view: AppView },
    /// An input field's value changed.
    InputUpdated { field_name: String, value: String },
    /// An input field gained or lost focus.
    InputFocusChanged { field_name: String, focused: bool },
    /// The user dismissed the error.
    ErrorDismissed,
    /// The user dismissed the notification.
    NotificationDismissed,
    /// Show a notification.
    ShowNotification { message: String, notification_type: NotificationType, auto_dismiss: Option<u32> },
    /// The user asked for a refresh.
    RefreshRequested,
    /// A setting changed.
    SettingChanged { setting_name: String, value: String },
    /// The layout mode changed.
    LayoutModeChanged { compact: bool },
    /// The theme changed.
    ThemeChanged { theme_name: String },
    /// The window was resized.
    WindowResized { width: u32, height: u32 },
    /// Periodic tick.
    Tick,
    /// Clear all input fields.
    ClearAllInputs,
    /// Reset the application state.
    ResetState,
    /// Toggle verbose mode.
    ToggleVerbose,
    /// Toggle optimization mode.
    ToggleOptimization,
}

/// Message priority levels, lowest first.
#[derive(Debug, Clone, Copy, PartialEq, Eq, Structural, PartialOrd, Ord)]
pub enum MessagePriority {
    /// Can be deferred.
    Low,
    /// Standard processing.
    Normal,
    /// Should be processed promptly.
    Medium,
    /// Needs immediate processing.
    High,
}

impl MessagePriority {
    /// The rank of a priority: low 0, normal 1, medium 2, high 3.
    pub open spec fn rank(self) -> int {
        match self {
            MessagePriority::Low => 0,
            MessagePriority::Normal => 1,
            MessagePriority::Medium => 2,
            MessagePriority::High => 3,
        }
    }
}

/// Message categories.
#[derive(Debug, Clone, Copy, PartialEq, Eq, Structural)]
pub enum MessageCategory {
    /// Navigation and view changes.
    Navigation,
    /// Input field interactions.
    Input,
    /// Notifications and error handling.
    Notification,
    /// Settings and configuration.
    Settings,
    /// Layout and visual changes.
    Layout,
    /// System and lifecycle messages.
    System,
}

impl UiMessage {
    /// Whether the message affects input validation.
    pub open spec fn touches_validation(&self) -> bool {
        self is InputUpdated || self is ClearAllInputs || self is ResetState
    }

    /// Whether the message needs an immediate UI update.
    pub open spec fn immediate(&self) -> bool {
        self is ShowNotification || self is ErrorDismissed || self is NotificationDismissed
            || self is ViewChanged || self is LayoutModeChanged || self is ThemeChanged
            || self is WindowResized
    }

    /// The message's priority.
    pub open spec fn priority(&self) -> MessagePriority {
        match self {
            UiMessage::ErrorDismissed => MessagePriority::High,
            UiMessage::ShowNotification { notification_type, .. } => {
                if *notification_type == NotificationType::Error {
                    MessagePriority::High
                } else {
                    MessagePriority::Normal
                }
            },
            UiMessage::ViewChanged { .. } | UiMessage::NotificationDismissed
            | UiMessage::WindowResized { .. } => MessagePriority::Medium,
            UiMessage::InputUpdated { .. } | UiMessage::InputFocusChanged { .. }
            | UiMessage::RefreshRequested => MessagePriority::Normal,
            UiMessage::Tick | UiMessage::SettingChanged { .. } | UiMessage::LayoutModeChanged { .. }
            | UiMessage::ThemeChanged { .. } => MessagePriority::Low,
            _ => MessagePriority::Normal,
        }
    }

    /// The message's category.
    pub open spec fn category(&self) -> MessageCategory {
        match self {
            UiMessage::ViewChanged { .. } => MessageCategory::Navigation,
            UiMessage::InputUpdated { .. } | UiMessage::InputFocusChanged { .. }
            | UiMessage::ClearAllInputs => MessageCategory::Input,
            UiMessage::ErrorDismissed | UiMessage::NotificationDismissed
            | UiMessage::ShowNotification { .. } => MessageCategory::Notification,
            UiMessage::SettingChanged { .. } | UiMessage::LayoutModeChanged { .. }
            | UiMessage::ThemeChanged { .. } | UiMessage::ToggleVerbose
            | UiMessage::ToggleOptimization => MessageCategory::Settings,
            UiMessage::WindowResized { .. } => MessageCategory::Layout,
            UiMessage::RefreshRequested | UiMessage::ResetState | UiMessage::Tick => MessageCategory::System,
        }
    }

    /// The message's description.
    pub open spec fn description(&self) -> Seq<char> {
        match self {
            UiMessage::ViewChanged { view } => "View changed to "@ + view.name_text(),
            UiMessage::InputUpdated { field_name, .. } => "Input updated: "@ + field_name@,
            UiMessage::InputFocusChanged { field_name, focused } => "Input focus "@ + (if *focused {
                "gained"@
            } else {
                "lost"@
            }) + ": "@ + field_name@,
            UiMessage::ErrorDismissed => "Error dismissed"@,
            UiMessage::NotificationDismissed => "Notification dismissed"@,
            UiMessage::ShowNotification { message, notification_type, .. } => "Show "@
                + notification_type.name_text() + " notification: "@ + message@,
            UiMessage::RefreshRequested => "Refresh requested"@,
            UiMessage::SettingChanged { setting_name, .. } => "Setting changed: "@ + setting_name@,
            UiMessage::LayoutModeChanged { compact } => "Layout mode changed to "@ + (if *compact {
                "compact"@
            } else {
                "normal"@
            }),
            UiMessage::ThemeChanged { theme_name } => "Theme changed to "@ + theme_name@,
            UiMessage::WindowResized { width, height } => "Window resized to "@ + decimal(
                *width as nat,
            ) + "x"@ + decimal(*height as nat),
            UiMessage::Tick => "Application tick"@,
            UiMessage::ClearAllInputs => "Clear all inputs"@,
            UiMessage::ResetState => "Reset application state"@,
            UiMessage::ToggleVerbose => "Toggle verbose mode"@,
            UiMessage::ToggleOptimization => "Toggle optimization mode"@,
        }
    }

    /// Whether validation should run again after the message: input updates,
    /// clearing the inputs, and resets.
    pub fn affects_validation(&self) -> (r: bool)
        ensures
            r == self.touches_validation(),
    {
        match self {
            UiMessage::InputUpdated { .. } | UiMessage::ClearAllInputs | UiMessage::ResetState => true,
            _ => false,
        }
    }

    /// Whether the UI should be refreshed at once after the message.
    pub fn requires_immediate_update(&self) -> (r: bool)
        ensures
            r == self.immediate(),
    {
        match self {
            UiMessage::ShowNotification { .. } | UiMessage::ErrorDismissed
            | UiMessage::NotificationDismissed | UiMessage::ViewChanged { .. }
            | UiMessage::LayoutModeChanged { .. } | UiMessage::ThemeChanged { .. }
            | UiMessage::WindowResized { .. } => true,
            _ => false,
        }
    }

    /// The message's processing priority.
    pub fn get_priority(&self) -> (r: MessagePriority)
        ensures
            r == self.priority(),
    {
        match self {
            UiMessage::ErrorDismissed => MessagePriority::High,
            UiMessage::ShowNotification { notification_type: NotificationType::Error, .. } => {
                MessagePriority::High
            },
            UiMessage::ViewChanged { .. } | UiMessage::NotificationDismissed
            | UiMessage::WindowResized { .. } => MessagePriority::Medium,
            UiMessage::InputUpdated { .. } | UiMessage::InputFocusChanged { .. }
            | UiMessage::RefreshRequested => MessagePriority::Normal,
            UiMessage::Tick | UiMessage::SettingChanged { .. } | UiMessage::LayoutModeChanged { .. }
            | UiMessage::ThemeChanged { .. } => MessagePriority::Low,
            _ => MessagePriority::Normal,
        }
    }

    /// The message's category.
    pub fn get_category(&self) -> (r: MessageCategory)
        ensures
            r == self.category(),
    {
        match self {
            UiMessage::ViewChanged { .. } => MessageCategory::Navigation,
            UiMessage::InputUpdated { .. } | UiMessage::InputFocusChanged { .. }
            | UiMessage::ClearAllInputs => MessageCategory::Input,
            UiMessage::ErrorDismissed | UiMessage::NotificationDismissed
            | UiMessage::ShowNotification { .. } => MessageCategory::Notification,
            UiMessage::SettingChanged { .. } | UiMessage::LayoutModeChanged { .. }
            | UiMessage::ThemeChanged { .. } | UiMessage::ToggleVerbose
            | UiMessage::ToggleOptimization => MessageCategory::Settings,
            UiMessage::WindowResized { .. } => MessageCategory::Layout,
            UiMessage::RefreshRequested | UiMessage::ResetState | UiMessage::Tick => MessageCategory::System,
        }
    }

    /// The message's description for logging.
    pub fn get_description(&self) -> (s: String)
        ensures
            s@ == self.description(),
    {
        match self {
            UiMessage::ViewChanged { view } => {
                let name = view.name();
                join2("View changed to ", name.as_str())
            },
            UiMessage::InputUpdated { field_name, .. } => join2("Input updated: ", field_name.as_str()),
            UiMessage::InputFocusChanged { field_name, focused } => {
                let how = if *focused {
                    "gained"
                } else {
                    "lost"
                };
                copy_text("Input focus ").concat(how).concat(": ").concat(field_name.as_str())
            },
            UiMessage::ErrorDismissed => copy_text("Error dismissed"),
            UiMessage::NotificationDismissed => copy_text("Notification dismissed"),
            UiMessage::ShowNotification { message, notification_type, .. } => {
                let name = notification_type.name();
                copy_text("Show ").concat(name.as_str()).concat(" notification: ").concat(
                    message.as_str(),
                )
            },
            UiMessage::RefreshRequested => copy_text("Refresh requested"),
            UiMessage::SettingChanged { setting_name, .. } => join2(
                "Setting changed: ",
                setting_name.as_str(),
            ),
            UiMessage::LayoutModeChanged { compact } => {
                if *compact {
                    join2("Layout mode changed to ", "compact")
                } else {
                    join2("Layout mode changed to ", "normal")
                }
            },
            UiMessage::ThemeChanged { theme_name } => join2("Theme changed to ", theme_name.as_str()),
            UiMessage::WindowResized { width, height } => {
                let w = text_then_number("Window resized to ", *width as u64);
                let h = text_then_number("x", *height as u64);
                w.concat(h.as_str())
            },
            UiMessage::Tick => copy_text("Application tick"),
            UiMessage::ClearAllInputs => copy_text("Clear all inputs"),
            UiMessage::ResetState => copy_text("Reset application state"),
            UiMessage::ToggleVerbose => copy_text("Toggle verbose mode"),
            UiMessage::ToggleOptimization => copy_text("Toggle optimization mode"),
        }
    }
}

/// UI message constructors.
pub struct UiMessageUtils;

impl UiMessageUtils {
    /// An input update message.
    pub fn input_updated(field_name: &str, value: &str) -> (r: UiMessage)
        ensures
            r matches UiMessage::InputUpdated { field_name: f, value: v } && f@ == field_name@ && v@
                == value@,
    {
        UiMessage::InputUpdated { field_name: copy_text(field_name), value: copy_text(value) }
    }

    /// A notification message.
    pub fn show_notification(
        message: &str,
        notification_type: NotificationType,
        auto_dismiss: Option<u32>,
    ) -> (r: UiMessage)
        ensures
            r matches UiMessage::ShowNotification { message: m, notification_type: t, auto_dismiss: a }
                && m@ == message@ && t == notification_type && a == auto_dismiss,
    {
        UiMessage::ShowNotification { message: copy_text(message), notification_type, auto_dismiss }
    }

    /// A view change message.
    pub fn view_changed(view: AppView) -> (r: UiMessage)
        ensures
            r == (UiMessage::ViewChanged { view }),
    {
        UiMessage::ViewChanged { view }
    }
}

} // verus!
