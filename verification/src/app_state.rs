//! Application state: view, input validation, notifications, input fields and
//! settings.

use vstd::prelude::*;
use vstd::string::*;

use crate::text::{copy_text, texts_equal};

verus! {

/// The views the application can show.
#[derive(Debug, Clone, Copy, PartialEq, Eq, Structural)]
pub enum AppView {
    /// Main control view.
    Main,
    /// Device information view.
    DeviceInfo,
    /// Settings view.
    Settings,
    /// Help view.
    Help,
    /// Error view.
    Error,
}

impl AppView {
    /// The view a new application shows: the main view.
    pub fn default_view() -> (r: AppView)
        ensures
            r == AppView::Main,
    {
        AppView::Main
    }

    /// The name of the view.
    pub open spec fn name_text(self) -> Seq<char> {
        match self {
            AppView::Main => "Main"@,
            AppView::DeviceInfo => "DeviceInfo"@,
            AppView::Settings => "Settings"@,
            AppView::Help => "Help"@,
            AppView::Error => "Error"@,
        }
    }

    /// The name of the view, as its debug form writes it.
    pub fn name(&self) -> (s: String)
        ensures
            s@ == self.name_text(),
    {
        match self {
            AppView::Main => copy_text("Main"),
            AppView::DeviceInfo => copy_text("DeviceInfo"),
            AppView::Settings => copy_text("Settings"),
            AppView::Help => copy_text("Help"),
            AppView::Error => copy_text("Error"),
        }
    }
}

/// Input validation state.
#[derive(Debug)]
pub struct ValidationState {
    /// ARM current input validation.
    pub arm_current_valid: bool,
    /// ARM current validation message.
    pub arm_current_message: Option<String>,
    /// Stage current input validation.
    pub stage_current_valid: bool,
    /// Stage current validation message.
    pub stage_current_message: Option<String>,
    /// General validation errors.
    pub general_errors: Vec<String>,
}

impl ValidationState {
    /// Whether any validation error exists.
    pub open spec fn errors(&self) -> bool {
        !self.arm_current_valid || !self.stage_current_valid || self.general_errors@.len() > 0
    }

    /// Whether the state holds no error and no message.
    pub open spec fn is_clear(&self) -> bool {
        &&& self.arm_current_valid
        &&& self.arm_current_message is None
        &&& self.stage_current_valid
        &&& self.stage_current_message is None
        &&& self.general_errors@.len() == 0
    }

    /// A state in which neither input has been found valid yet.
    pub fn new() -> (r: Self)
        ensures
            !r.arm_current_valid,
            r.arm_current_message is None,
            !r.stage_current_valid,
            r.stage_current_message is None,
            r.general_errors@.len() == 0,
    {
        ValidationState {
            arm_current_valid: false,
            arm_current_message: None,
            stage_current_valid: false,
            stage_current_message: None,
            general_errors: Vec::new(),
        }
    }

    /// Clears every validation error: both inputs valid, no messages.
    pub fn clear_all(&mut self)
        ensures
            final(self).is_clear(),
    {
        self.arm_current_valid = true;
        self.arm_current_message = None;
        self.stage_current_valid = true;
        self.stage_current_message = None;
        self.general_errors = Vec::new();
    }

    /// Sets the ARM current validation.
    pub fn set_arm_current_validation(&mut self, valid: bool, message: Option<String>)
        ensures
            final(self).arm_current_valid == valid,
            final(self).arm_current_message == message,
            final(self).stage_current_valid == old(self).stage_current_valid,
            final(self).stage_current_message == old(self).stage_current_message,
            final(self).general_errors == old(self).general_errors,
    {
        self.arm_current_valid = valid;
        self.arm_current_message = message;
    }

    /// Sets the stage current validation.
    pub fn set_stage_current_validation(&mut self, valid: bool, message: Option<String>)
        ensures
            final(self).stage_current_valid == valid,
            final(self).stage_current_message == message,
            final(self).arm_current_valid == old(self).arm_current_valid,
            final(self).arm_current_message == old(self).arm_current_message,
            final(self).general_errors == old(self).general_errors,
    {
        self.stage_current_valid = valid;
        self.stage_current_message = message;
    }

    /// Adds a general error.
    pub fn add_general_error(&mut self, error: String)
        ensures
            final(self).general_errors@ == old(self).general_errors@.push(error),
            final(self).arm_current_valid == old(self).arm_current_valid,
            final(self).arm_current_message == old(self).arm_current_message,
            final(self).stage_current_valid == old(self).stage_current_valid,
            final(self).stage_current_message == old(self).stage_current_message,
    {
        self.general_errors.push(error);
    }

    /// Whether any validation error exists.
    pub fn has_errors(&self) -> (r: bool)
        ensures
            r == self.errors(),
    {
        !self.arm_current_valid || !self.stage_current_valid || self.general_errors.len() > 0
    }
}

/// Notification types.
#[derive(Debug, Clone, Copy, PartialEq, Eq, Structural)]
pub enum NotificationType {
    /// Information.
    Info,
    /// Success.
    Success,
    /// Warning.
    Warning,
    /// Error.
    Error,
}

impl NotificationType {
    /// The name of the type.
    pub open spec fn name_text(self) -> Seq<char> {
        match self {
            NotificationType::Info => "Info"@,
            NotificationType::Success => "Success"@,
            NotificationType::Warning => "Warning"@,
            NotificationType::Error => "Error"@,
        }
    }

    /// The name of the type, as its debug form writes it.
    pub fn name(&self) -> (s: String)
        ensures
            s@ == self.name_text(),
    {
        match self {
            NotificationType::Info => copy_text("Info"),
            NotificationType::Success => copy_text("Success"),
            NotificationType::Warning => copy_text("Warning"),
            NotificationType::Error => copy_text("Error"),
        }
    }
}

/// Notification display state.
#[derive(Debug)]
pub struct NotificationState {
    /// Current notification message.
    pub message: Option<String>,
    /// Notification type.
    pub notification_type: NotificationType,
    /// Whether the notification is visible.
    pub visible: bool,
    /// Auto-dismiss timer, in ticks (seconds).
    pub auto_dismiss_timer: Option<u32>,
}

impl NotificationState {
    /// Whether nothing is shown.
    pub open spec fn hidden(&self) -> bool {
        !self.visible && self.message is None && self.auto_dismiss_timer is None
    }

    /// Whether `message` is shown with the given type and timer.
    pub open spec fn showing(
        &self,
        message: Seq<char>,
        notification_type: NotificationType,
        timer: Option<u32>,
    ) -> bool {
        &&& self.visible
        &&& self.message matches Some(m) && m@ == message
        &&& self.notification_type == notification_type
        &&& self.auto_dismiss_timer == timer
    }

    /// The state after one timer tick: a running timer counts down, a timer at
    /// zero hides the notification, no timer leaves it as it is.
    pub open spec fn ticked(self) -> NotificationState {
        match self.auto_dismiss_timer {
            Some(t) => if t > 0 {
                NotificationState { auto_dismiss_timer: Some((t - 1) as u32), ..self }
            } else {
                NotificationState {
                    visible: false,
                    message: None,
                    auto_dismiss_timer: None,
                    ..self
                }
            },
            None => self,
        }
    }

    /// Nothing shown, type info.
    pub fn new() -> (r: Self)
        ensures
            r.hidden(),
            r.notification_type == NotificationType::Info,
    {
        NotificationState {
            message: None,
            notification_type: NotificationType::Info,
            visible: false,
            auto_dismiss_timer: None,
        }
    }

    /// Shows a notification.
    pub fn show(
        &mut self,
        message: String,
        notification_type: NotificationType,
        auto_dismiss: Option<u32>,
    )
        ensures
            final(self).message == Some(message),
            final(self).notification_type == notification_type,
            final(self).visible,
            final(self).auto_dismiss_timer == auto_dismiss,
    {
        self.message = Some(message);
        self.notification_type = notification_type;
        self.visible = true;
        self.auto_dismiss_timer = auto_dismiss;
    }

    /// Hides the notification.
    pub fn dismiss(&mut self)
        ensures
            final(self).hidden(),
            final(self).notification_type == old(self).notification_type,
    {
        self.visible = false;
        self.message = None;
        self.auto_dismiss_timer = None;
    }

    /// One tick of the auto-dismiss timer.
    pub fn update_timer(&mut self)
        ensures
            *final(self) == old(self).ticked(),
    {
        match self.auto_dismiss_timer {
            Some(t) => {
                if t > 0 {
                    self.auto_dismiss_timer = Some(t - 1);
                } else {
                    self.dismiss();
                }
            },
            None => {},
        }
    }
}

/// Input field state.
#[derive(Debug)]
pub struct InputFieldState {
    /// Current input value.
    pub value: String,
    /// Whether the field is focused.
    pub focused: bool,
    /// Whether the field has been modified.
    pub modified: bool,
    /// Validation state.
    pub valid: bool,
    /// Validation message.
    pub validation_message: Option<String>,
}

impl InputFieldState {
    /// An empty, unfocused, unmodified field, not yet valid.
    pub fn new() -> (r: Self)
        ensures
            r.value@.len() == 0,
            !r.focused,
            !r.modified,
            !r.valid,
            r.validation_message is None,
    {
        InputFieldState {
            value: String::new(),
            focused: false,
            modified: false,
            valid: false,
            validation_message: None,
        }
    }

    /// Sets the value and marks the field modified.
    pub fn set_value(&mut self, value: String)
        ensures
            final(self).value == value,
            final(self).modified,
            final(self).focused == old(self).focused,
            final(self).valid == old(self).valid,
            final(self).validation_message == old(self).validation_message,
    {
        self.value = value;
        self.modified = true;
    }

    /// Sets the focus.
    pub fn set_focused(&mut self, focused: bool)
        ensures
            final(self).focused == focused,
            final(self).value == old(self).value,
            final(self).modified == old(self).modified,
            final(self).valid == old(self).valid,
            final(self).validation_message == old(self).validation_message,
    {
        self.focused = focused;
    }

    /// Sets the validation state.
    pub fn set_validation(&mut self, valid: bool, message: Option<String>)
        ensures
            final(self).valid == valid,
            final(self).validation_message == message,
            final(self).value == old(self).value,
            final(self).focused == old(self).focused,
            final(self).modified == old(self).modified,
    {
        self.valid = valid;
        self.validation_message = message;
    }

    /// Empties the field: no value, unmodified, valid, no message.
    pub fn clear(&mut self)
        ensures
            final(self).value@.len() == 0,
            !final(self).modified,
            final(self).valid,
            final(self).validation_message is None,
            final(self).focused == old(self).focused,
    {
        self.value = String::new();
        self.modified = false;
        self.valid = true;
        self.validation_message = None;
    }
}

/// A named input field.
#[derive(Debug)]
pub struct InputFieldEntry {
    /// The field's name.
    pub name: String,
    /// The field's state.
    pub field: InputFieldState,
}

/// Whether `i` is the first position of `fields` that holds the field `name`.
pub open spec fn first_field(fields: Seq<InputFieldEntry>, name: Seq<char>, i: int) -> bool {
    &&& 0 <= i < fields.len()
    &&& fields[i].name@ == name
    &&& forall|j: int| 0 <= j < i ==> #[trigger] fields[j].name@ != name
}

/// Whether some position of `fields` holds the field `name`.
pub open spec fn has_field(fields: Seq<InputFieldEntry>, name: Seq<char>) -> bool {
    exists|i: int| 0 <= i < fields.len() && #[trigger] fields[i].name@ == name
}

/// The field named `name`: the first one of that name in `fields`.
pub open spec fn field_named(fields: Seq<InputFieldEntry>, name: Seq<char>) -> Option<InputFieldState> {
    if has_field(fields, name) {
        let i = choose|i: int| first_field(fields, name, i);
        Some(fields[i].field)
    } else {
        None
    }
}

/// A sequence of fields that differs from another only at the first
/// position holding `name`, where it still holds `name`, finds under `name`
/// the field at that position, and under every other name what the other
/// sequence finds.
pub proof fn lemma_fields_differ_at(old_fields: Seq<InputFieldEntry>, fields: Seq<InputFieldEntry>, i: int, name: Seq<char>)
    requires
        first_field(old_fields, name, i),
        fields =~= old_fields.update(i, fields[i]),
        fields[i].name@ == name,
    ensures
        field_named(fields, name) == Some(fields[i].field),
        forall|other: Seq<char>|
            other != name ==> #[trigger] field_named(fields, other) == field_named(old_fields, other),
{
    assert(first_field(fields, name, i));
    lemma_first_field_exists(fields, name);
    let k = choose|k: int| first_field(fields, name, k);
    lemma_first_field_unique(fields, name, i, k);
    assert forall|other: Seq<char>| other != name implies #[trigger] field_named(fields, other)
        == field_named(old_fields, other) by {
        if has_field(old_fields, other) {
            let w = choose|w: int| 0 <= w < old_fields.len() && #[trigger] old_fields[w].name@ == other;
            assert(fields[w].name@ == other);
            lemma_first_field_exists(old_fields, other);
            lemma_first_field_exists(fields, other);
            let a = choose|a: int| first_field(old_fields, other, a);
            let b = choose|b: int| first_field(fields, other, b);
            assert(first_field(fields, other, a));
            lemma_first_field_unique(fields, other, a, b);
        } else {
            assert forall|w: int| 0 <= w < fields.len() implies #[trigger] fields[w].name@ != other by {
                assert(old_fields[w].name@ != other);
            }
        }
    }
}

/// Replacing the state of the field found under a name changes what the
/// name finds to the new state and leaves every other name's field as it was.
pub proof fn lemma_field_replaced(fields: Seq<InputFieldEntry>, i: int, name: Seq<char>, f: InputFieldState)
    requires
        first_field(fields, name, i),
    ensures
        ({
            let updated = fields.update(i, InputFieldEntry { name: fields[i].name, field: f });
            &&& field_named(updated, name) == Some(f)
            &&& forall|other: Seq<char>|
                other != name ==> #[trigger] field_named(updated, other) == field_named(
                    fields,
                    other,
                )
        }),
{
    let updated = fields.update(i, InputFieldEntry { name: fields[i].name, field: f });
    lemma_fields_differ_at(fields, updated, i, name);
}

/// A has-field witness gives the first position.
pub proof fn lemma_first_field_exists(fields: Seq<InputFieldEntry>, name: Seq<char>)
    requires
        has_field(fields, name),
    ensures
        exists|i: int| first_field(fields, name, i),
{
    let k = choose|k: int| 0 <= k < fields.len() && #[trigger] fields[k].name@ == name;
    lemma_first_below(fields, name, k);
}

proof fn lemma_first_below(fields: Seq<InputFieldEntry>, name: Seq<char>, k: int)
    requires
        0 <= k < fields.len(),
        fields[k].name@ == name,
    ensures
        exists|i: int| first_field(fields, name, i),
    decreases k,
{
    if exists|j: int| 0 <= j < k && #[trigger] fields[j].name@ == name {
        let j = choose|j: int| 0 <= j < k && #[trigger] fields[j].name@ == name;
        lemma_first_below(fields, name, j);
    } else {
        assert(first_field(fields, name, k));
    }
}

/// The first position is unique.
pub proof fn lemma_first_field_unique(fields: Seq<InputFieldEntry>, name: Seq<char>, i: int, k: int)
    requires
        first_field(fields, name, i),
        first_field(fields, name, k),
    ensures
        i == k,
{
    if i < k {
        assert(fields[i].name@ != name);
    } else if k < i {
        assert(fields[k].name@ != name);
    }
}

/// Main application state.
#[derive(Debug)]
pub struct AppState {
    /// Current application view.
    pub current_view: AppView,
    /// Validation state.
    pub validation: ValidationState,
    /// Notification state.
    pub notifications: NotificationState,
    /// Input field states, by name.
    pub input_fields: Vec<InputFieldEntry>,
    /// Whether the application is busy.
    pub busy: bool,
    /// Last operation status.
    pub last_operation_success: Option<bool>,
    /// Application settings.
    pub settings: AppSettings,
}

/// Application settings.
#[derive(Debug)]
pub struct AppSettings {
    /// Auto-refresh interval for device status, in seconds.
    pub auto_refresh_interval: u32,
    /// Whether to show confirmation dialogs.
    pub show_confirmations: bool,
    /// Whether to use the compact layout.
    pub compact_layout: bool,
    /// Theme preference.
    pub theme: String,
}

impl AppSettings {
    /// Refresh every five seconds, confirmations on, normal layout, default theme.
    pub fn new() -> (r: Self)
        ensures
            r.auto_refresh_interval == 5,
            r.show_confirmations,
            !r.compact_layout,
            r.theme@ == "default"@,
    {
        AppSettings {
            auto_refresh_interval: 5,
            show_confirmations: true,
            compact_layout: false,
            theme: copy_text("default"),
        }
    }
}

impl AppState {
    /// The field named `name`, if there is one.
    pub open spec fn field(&self, name: Seq<char>) -> Option<InputFieldState> {
        field_named(self.input_fields@, name)
    }

    /// Whether two states agree on everything but the input fields.
    pub open spec fn same_except_fields(&self, other: &Self) -> bool {
        &&& self.current_view == other.current_view
        &&& self.validation == other.validation
        &&& self.notifications == other.notifications
        &&& self.busy == other.busy
        &&& self.last_operation_success == other.last_operation_success
        &&& self.settings == other.settings
    }

    /// The main view, nothing shown or busy, default settings, and two empty
    /// input fields: `arm_current` and `stage_current`.
    pub fn new() -> (r: Self)
        ensures
            r.current_view == AppView::Main,
            !r.busy,
            r.last_operation_success is None,
            r.notifications.hidden(),
            r.input_fields@.len() == 2,
            r.input_fields@[0].name@ == "arm_current"@,
            r.input_fields@[1].name@ == "stage_current"@,
            r.input_fields@[0].field.value@.len() == 0,
            r.input_fields@[1].field.value@.len() == 0,
            !r.validation.arm_current_valid,
            !r.validation.stage_current_valid,
            r.settings.auto_refresh_interval == 5,
            r.settings.show_confirmations,
            !r.settings.compact_layout,
            r.settings.theme@ == "default"@,
    {
        let mut fields: Vec<InputFieldEntry> = Vec::new();
        fields.push(InputFieldEntry { name: copy_text("arm_current"), field: InputFieldState::new() });
        fields.push(InputFieldEntry { name: copy_text("stage_current"), field: InputFieldState::new() });
        AppState {
            current_view: AppView::default_view(),
            validation: ValidationState::new(),
            notifications: NotificationState::new(),
            input_fields: fields,
            busy: false,
            last_operation_success: None,
            settings: AppSettings::new(),
        }
    }

    /// Sets the current view.
    pub fn set_view(&mut self, view: AppView)
        ensures
            final(self).current_view == view,
            final(self).validation == old(self).validation,
            final(self).notifications == old(self).notifications,
            final(self).input_fields == old(self).input_fields,
            final(self).busy == old(self).busy,
            final(self).last_operation_success == old(self).last_operation_success,
            final(self).settings == old(self).settings,
    {
        self.current_view = view;
    }

    /// Sets the busy flag.
    pub fn set_busy(&mut self, busy: bool)
        ensures
            final(self).busy == busy,
            final(self).current_view == old(self).current_view,
            final(self).validation == old(self).validation,
            final(self).notifications == old(self).notifications,
            final(self).input_fields == old(self).input_fields,
            final(self).last_operation_success == old(self).last_operation_success,
            final(self).settings == old(self).settings,
    {
        self.busy = busy;
    }

    /// Records the last operation's outcome.
    pub fn set_last_operation(&mut self, success: bool)
        ensures
            final(self).last_operation_success == Some(success),
            final(self).current_view == old(self).current_view,
            final(self).validation == old(self).validation,
            final(self).notifications == old(self).notifications,
            final(self).input_fields == old(self).input_fields,
            final(self).busy == old(self).busy,
            final(self).settings == old(self).settings,
    {
        self.last_operation_success = Some(success);
    }

    /// The position of the field named `name`, if there is one.
    fn find_field(&self, name: &str) -> (r: Option<usize>)
        ensures
            r matches Some(i) ==> first_field(self.input_fields@, name@, i as int),
            r is None ==> !has_field(self.input_fields@, name@),
    {
        let n = self.input_fields.len();
        let mut i: usize = 0;
        while i < n
            invariant
                n == self.input_fields@.len(),
                i <= n,
                forall|j: int| 0 <= j < i ==> #[trigger] self.input_fields@[j].name@ != name@,
            decreases n - i,
        {
            if texts_equal(self.input_fields[i].name.as_str(), name) {
                return Some(i);
            }
            i = i + 1;
        }
        None
    }

    /// The field named `field_name`.
    pub fn get_input_field(&self, field_name: &str) -> (r: Option<&InputFieldState>)
        ensures
            r matches Some(f) ==> self.field(field_name@) == Some(*f),
            r is None ==> self.field(field_name@) is None,
    {
        match self.find_field(field_name) {
            Some(i) => {
                proof {
                    lemma_first_field_exists(self.input_fields@, field_name@);
                    let k = choose|k: int| first_field(self.input_fields@, field_name@, k);
                    lemma_first_field_unique(self.input_fields@, field_name@, i as int, k);
                }
                Some(&self.input_fields[i].field)
            },
            None => None,
        }
    }

    /// The field named `field_name`, to change in place.
    pub fn get_input_field_mut(&mut self, field_name: &str) -> (r: Option<&mut InputFieldState>)
        ensures
            r is Some <==> old(self).field(field_name@) is Some,
            r matches Some(f) ==> old(self).field(field_name@) == Some(*f),
            r matches Some(f) ==> exists|i: int|
                {
                    &&& first_field(old(self).input_fields@, field_name@, i)
                    &&& final(self).input_fields@ == old(self).input_fields@.update(
                        i,
                        InputFieldEntry { name: old(self).input_fields@[i].name, field: *final(f) },
                    )
                },
            r matches Some(f) ==> final(self).same_except_fields(&*old(self)),
            r is None ==> *final(self) == *old(self),
    {
        match self.find_field(field_name) {
            Some(i) => {
                proof {
                    lemma_first_field_exists(self.input_fields@, field_name@);
                    let k = choose|k: int| first_field(self.input_fields@, field_name@, k);
                    lemma_first_field_unique(self.input_fields@, field_name@, i as int, k);
                }
                let entry = &mut self.input_fields[i];
                Some(&mut entry.field)
            },
            None => None,
        }
    }

    /// Updates the value of the field named `field_name`, creating the field
    /// when there is none.
    pub fn update_input_field(&mut self, field_name: &str, value: String)
        ensures
            final(self).same_except_fields(&*old(self)),
            final(self).field(field_name@) matches Some(f) && f.value == value && f.modified,
            old(self).field(field_name@) matches Some(f0) ==> (final(self).field(
                field_name@,
            ) matches Some(f) && f.focused == f0.focused && f.valid == f0.valid
                && f.validation_message == f0.validation_message),
            old(self).field(field_name@) is None ==> (final(self).field(field_name@) matches Some(
                f,
            ) && !f.focused && !f.valid && f.validation_message is None),
            forall|other: Seq<char>|
                other != field_name@ ==> #[trigger] final(self).field(other) == old(self).field(
                    other,
                ),
    {
        let ghost old_fields = self.input_fields@;
        match self.find_field(field_name) {
            Some(i) => {
                let mut entry = self.input_fields.remove(i);
                entry.field.set_value(value);
                self.input_fields.insert(i, entry);
                proof {
                    let fields = self.input_fields@;
                    assert(fields =~= old_fields.update(i as int, fields[i as int]));
                    self.lemma_update_at(old_fields, i as int, field_name@);
                }
            },
            None => {
                let mut field = InputFieldState::new();
                field.set_value(value);
                self.input_fields.push(InputFieldEntry { name: copy_text(field_name), field });
                proof {
                    self.lemma_push_new(old_fields, field_name@);
                }
            },
        }
    }

    proof fn lemma_update_at(&self, old_fields: Seq<InputFieldEntry>, i: int, name: Seq<char>)
        requires
            first_field(old_fields, name, i),
            self.input_fields@ =~= old_fields.update(i, self.input_fields@[i]),
            self.input_fields@[i].name@ == name,
        ensures
            field_named(self.input_fields@, name) == Some(self.input_fields@[i].field),
            forall|other: Seq<char>|
                other != name ==> #[trigger] field_named(self.input_fields@, other)
                    == field_named(old_fields, other),
    {
        lemma_fields_differ_at(old_fields, self.input_fields@, i, name);
    }

    proof fn lemma_push_new(&self, old_fields: Seq<InputFieldEntry>, name: Seq<char>)
        requires
            !has_field(old_fields, name),
            self.input_fields@ == old_fields.push(self.input_fields@.last()),
            self.input_fields@.last().name@ == name,
        ensures
            field_named(self.input_fields@, name) == Some(self.input_fields@.last().field),
            forall|other: Seq<char>|
                other != name ==> #[trigger] field_named(self.input_fields@, other)
                    == field_named(old_fields, other),
    {
        let fields = self.input_fields@;
        let n = old_fields.len() as int;
        assert(fields[n].name@ == name);
        assert(first_field(fields, name, n)) by {
            assert forall|j: int| 0 <= j < n implies #[trigger] fields[j].name@ != name by {
                assert(fields[j] == old_fields[j]);
            }
        }
        lemma_first_field_exists(fields, name);
        let k = choose|k: int| first_field(fields, name, k);
        lemma_first_field_unique(fields, name, n, k);
        assert forall|other: Seq<char>| other != name implies #[trigger] field_named(fields, other)
            == field_named(old_fields, other) by {
            if has_field(old_fields, other) {
                let w = choose|w: int| 0 <= w < old_fields.len() && #[trigger] old_fields[w].name@ == other;
                assert(fields[w] == old_fields[w]);
                lemma_first_field_exists(old_fields, other);
                lemma_first_field_exists(fields, other);
                let a = choose|a: int| first_field(old_fields, other, a);
                let b = choose|b: int| first_field(fields, other, b);
                assert(first_field(fields, other, a)) by {
                    assert forall|j: int| 0 <= j < a implies #[trigger] fields[j].name@ != other by {
                        assert(fields[j] == old_fields[j]);
                    }
                }
                lemma_first_field_unique(fields, other, a, b);
            } else {
                assert forall|w: int| 0 <= w < fields.len() implies #[trigger] fields[w].name@ != other by {
                    if w < n {
                        assert(fields[w] == old_fields[w]);
                    }
                }
            }
        }
    }

    /// Sets the focus of the field named `field_name`, if there is one.
    pub fn set_input_field_focus(&mut self, field_name: &str, focused: bool)
        ensures
            final(self).same_except_fields(&*old(self)),
            old(self).field(field_name@) is None ==> final(self).input_fields == old(self).input_fields,
            old(self).field(field_name@) matches Some(f0) ==> (final(self).field(field_name@) matches Some(f)
                && f.focused == focused && f.value == f0.value && f.modified == f0.modified
                && f.valid == f0.valid && f.validation_message == f0.validation_message),
            forall|other: Seq<char>|
                other != field_name@ ==> #[trigger] final(self).field(other) == old(self).field(
                    other,
                ),
    {
        let ghost old_fields = self.input_fields@;
        match self.find_field(field_name) {
            Some(i) => {
                let mut entry = self.input_fields.remove(i);
                entry.field.set_focused(focused);
                self.input_fields.insert(i, entry);
                proof {
                    lemma_first_field_exists(old_fields, field_name@);
                    let k = choose|k: int| first_field(old_fields, field_name@, k);
                    lemma_first_field_unique(old_fields, field_name@, i as int, k);
                    let fields = self.input_fields@;
                    assert(fields =~= old_fields.update(i as int, fields[i as int]));
                    self.lemma_update_at(old_fields, i as int, field_name@);
                }
            },
            None => {},
        }
    }

    /// Empties every input field.
    pub fn clear_all_inputs(&mut self)
        ensures
            final(self).same_except_fields(&*old(self)),
            final(self).input_fields@.len() == old(self).input_fields@.len(),
            forall|i: int|
                0 <= i < final(self).input_fields@.len() ==> {
                    let e = #[trigger] final(self).input_fields@[i];
                    let e0 = old(self).input_fields@[i];
                    &&& e.name == e0.name
                    &&& e.field.value@.len() == 0
                    &&& !e.field.modified
                    &&& e.field.valid
                    &&& e.field.validation_message is None
                    &&& e.field.focused == e0.field.focused
                },
    {
        let ghost old_fields = self.input_fields@;
        let n = self.input_fields.len();
        let mut i: usize = 0;
        while i < n
            invariant
                i <= n,
                n == self.input_fields@.len(),
                n == old_fields.len(),
                self.same_except_fields(&*old(self)),
                forall|j: int|
                    0 <= j < n ==> {
                        let e = #[trigger] self.input_fields@[j];
                        let e0 = old_fields[j];
                        &&& e.name == e0.name
                        &&& e.field.focused == e0.field.focused
                        &&& j < i ==> {
                            &&& e.field.value@.len() == 0
                            &&& !e.field.modified
                            &&& e.field.valid
                            &&& e.field.validation_message is None
                        }
                        &&& j >= i ==> e == e0
                    },
            decreases n - i,
        {
            let mut entry = self.input_fields.remove(i);
            entry.field.clear();
            self.input_fields.insert(i, entry);
            i = i + 1;
        }
    }

    /// Shows a notification.
    pub fn show_notification(
        &mut self,
        message: String,
        notification_type: NotificationType,
        auto_dismiss: Option<u32>,
    )
        ensures
            final(self).notifications.message == Some(message),
            final(self).notifications.notification_type == notification_type,
            final(self).notifications.visible,
            final(self).notifications.auto_dismiss_timer == auto_dismiss,
            final(self).current_view == old(self).current_view,
            final(self).validation == old(self).validation,
            final(self).input_fields == old(self).input_fields,
            final(self).busy == old(self).busy,
            final(self).last_operation_success == old(self).last_operation_success,
            final(self).settings == old(self).settings,
    {
        self.notifications.show(message, notification_type, auto_dismiss);
    }

    /// Hides the notification.
    pub fn hide_notification(&mut self)
        ensures
            final(self).notifications.hidden(),
            final(self).notifications.notification_type == old(self).notifications.notification_type,
            final(self).current_view == old(self).current_view,
            final(self).validation == old(self).validation,
            final(self).input_fields == old(self).input_fields,
            final(self).busy == old(self).busy,
            final(self).last_operation_success == old(self).last_operation_success,
            final(self).settings == old(self).settings,
    {
        self.notifications.dismiss();
    }

    /// One periodic update: the notification timer ticks.
    pub fn update(&mut self)
        ensures
            final(self).notifications == old(self).notifications.ticked(),
            final(self).current_view == old(self).current_view,
            final(self).validation == old(self).validation,
            final(self).input_fields == old(self).input_fields,
            final(self).busy == old(self).busy,
            final(self).last_operation_success == old(self).last_operation_success,
            final(self).settings == old(self).settings,
    {
        self.notifications.update_timer();
    }
}


impl Default for AppView {
    /// The main view.
    fn default() -> (r: Self)
        ensures
            r == AppView::Main,
    {
        AppView::default_view()
    }
}

impl Default for NotificationState {
    /// Nothing shown, type info.
    fn default() -> (r: Self)
        ensures
            r.hidden(),
            r.notification_type == NotificationType::Info,
    {
        NotificationState::new()
    }
}

impl Default for ValidationState {
    /// Neither input found valid yet, no messages, no errors.
    fn default() -> (r: Self)
        ensures
            !r.arm_current_valid,
            r.arm_current_message is None,
            !r.stage_current_valid,
            r.stage_current_message is None,
            r.general_errors@.len() == 0,
    {
        ValidationState::new()
    }
}

impl Default for InputFieldState {
    /// An empty, unfocused, unmodified field, not yet valid.
    fn default() -> (r: Self)
        ensures
            r.value@.len() == 0,
            !r.focused,
            !r.modified,
            !r.valid,
            r.validation_message is None,
    {
        InputFieldState::new()
    }
}

impl Default for AppSettings {
    /// Refresh every five seconds, confirmations on, normal layout, default theme.
    fn default() -> (r: Self)
        ensures
            r.auto_refresh_interval == 5,
            r.show_confirmations,
            !r.compact_layout,
            r.theme@ == "default"@,
    {
        AppSettings::new()
    }
}

impl Default for AppState {
    /// The main view, nothing shown or busy, default settings, and no input
    /// fields; `new` adds the two current fields.
    fn default() -> (r: Self)
        ensures
            r.current_view == AppView::Main,
            !r.busy,
            r.last_operation_success is None,
            r.notifications.hidden(),
            r.input_fields@.len() == 0,
            !r.validation.arm_current_valid,
            !r.validation.stage_current_valid,
            r.settings.auto_refresh_interval == 5,
            r.settings.show_confirmations,
            !r.settings.compact_layout,
            r.settings.theme@ == "default"@,
    {
        AppState {
            current_view: AppView::default_view(),
            validation: ValidationState::new(),
            notifications: NotificationState::new(),
            input_fields: Vec::new(),
            busy: false,
            last_operation_success: None,
            settings: AppSettings::new(),
        }
    }
}

} // verus!
