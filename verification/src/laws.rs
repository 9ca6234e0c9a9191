//! Properties of the library that span its operations, each proved from the
//! contracts of the functions it speaks of.

use vstd::prelude::*;
use vstd::string::*;

use crate::app_state::{NotificationState, ValidationState};
use crate::controls::{current_problem, CurrentControls};
use crate::device_messages::{DeviceMessage, DeviceOperationResult, MAX_MESSAGE_CURRENT};
use crate::device_state::{ConnectionState, DeviceState};
use crate::app_state::AppState;
use crate::error::LumidoxError;
use crate::gui::{transition, AppState as GuiState, GuiTask, Message as GuiMessage};
use crate::handlers::{arm_current_of, completion_effect, device_effect};
use crate::launch::GuiLaunch;
use crate::messages::{Message, MessageRouter};
use crate::text::{decimal, lemma_parse_decimal, lemma_without_milliamps_suffix, parse_unsigned};
use crate::handlers::{HandlerCommand, HandlerCoordinator};
use crate::controls::DeviceControls;
use crate::display::StatusDisplay;
use crate::error::DeviceMode;
use crate::ui_messages::UiMessage;
use crate::unified_state::{current_input_accepted, UnifiedState};
use crate::view::Tone;

verus! {

/// A notification state after `k` timer ticks.
pub open spec fn ticked_times(s: NotificationState, k: nat) -> NotificationState
    decreases k,
{
    if k == 0 {
        s
    } else {
        ticked_times(s, (k - 1) as nat).ticked()
    }
}

/// A notification shown with a timer of `n` ticks stays shown, counting
/// down, for `n` ticks.
pub proof fn lemma_notification_counts_down(s: NotificationState, n: u32, k: nat)
    requires
        s.visible,
        s.auto_dismiss_timer == Some(n),
        k <= n,
    ensures
        ticked_times(s, k) == (NotificationState { auto_dismiss_timer: Some((n - k) as u32), ..s }),
    decreases k,
{
    if k > 0 {
        lemma_notification_counts_down(s, n, (k - 1) as nat);
    }
}

/// A notification shown with a timer of `n` ticks is still shown, with its
/// message, after `n` ticks, and hidden after `n + 1`.
pub proof fn lemma_notification_expires(s: NotificationState, n: u32)
    requires
        s.visible,
        s.auto_dismiss_timer == Some(n),
    ensures
        ticked_times(s, n as nat).visible,
        ticked_times(s, n as nat).message == s.message,
        ticked_times(s, (n + 1) as nat).hidden(),
{
    lemma_notification_counts_down(s, n, n as nat);
}

/// Cleared validation reports no error.
pub proof fn lemma_cleared_validation_has_no_errors(v: ValidationState)
    requires
        v.is_clear(),
    ensures
        !v.errors(),
{
}

/// Every destructive device operation needs a connected device.
pub proof fn lemma_destructive_needs_connection(d: DeviceMessage)
    requires
        d.destructive(),
    ensures
        d.needs_connection(),
{
}

/// A message that the router holds back is one that validation refuses; for
/// a device operation whose parameters are in range, the two agree exactly.
pub proof fn lemma_queued_messages_are_refused(m: Message, s: UnifiedState)
    ensures
        MessageRouter::waits(&m, &s) ==> !m.acceptable(&s),
        (m matches Message::Device(d) && d.parameter_problem() is None) ==> (MessageRouter::waits(
            &m,
            &s,
        ) <==> !m.acceptable(&s)),
{
}

/// A device operation keeps the state busy from its start until its result
/// is recorded, which records whether it succeeded.
pub proof fn lemma_busy_until_completed(
    start: UnifiedState,
    running: UnifiedState,
    done: UnifiedState,
    d: DeviceMessage,
    r: DeviceOperationResult,
)
    requires
        device_effect(start, running, d),
        completion_effect(running, done, r),
    ensures
        running.app_state.busy,
        !done.app_state.busy,
        done.app_state.last_operation_success == Some(r.succeeded()),
{
}

/// A successful ARM current setting reports the current it set, written as
/// `<current>mA`, and recording that result caches the same current.
pub proof fn lemma_arm_current_round_trip(
    r: DeviceOperationResult,
    current: u16,
    before: UnifiedState,
    after: UnifiedState,
)
    requires
        r matches DeviceOperationResult::ParameterResult { success, parameter_name, value, .. }
            && success && parameter_name@ == "ARM Current"@ && (value matches Some(v) && v@
            == decimal(current as nat) + "mA"@),
        completion_effect(before, after, r),
    ensures
        arm_current_of(r) == Some(current as nat),
        after.device_state.cached_parameters.arm_current == Some(current),
{
    lemma_without_milliamps_suffix(current as nat);
    lemma_parse_decimal(current as nat, 65535);
}

/// A current that validation accepts reads as a number from 1 to the
/// maximum that the device reported.
pub proof fn lemma_accepted_current_within_max(
    value: Seq<char>,
    max: Option<Result<u16, LumidoxError>>,
    subject: Seq<char>,
)
    requires
        current_problem(value, max, subject) is None,
    ensures
        max matches Some(Ok(m)) && (parse_unsigned(value, 65535) matches Some(c) && 1 <= c <= m),
{
}

/// Where something is typed and the device reported its maximum, the
/// feedback under a current field without a given message agrees with the
/// stage current validation: it is good exactly when validation finds
/// nothing wrong, and otherwise shows validation's message.
pub proof fn lemma_feedback_agrees_with_validation(value: Seq<char>, max: u16)
    requires
        value.len() > 0,
    ensures
        ({
            let fb = CurrentControls::feedback(value, None, Some(Ok(max)));
            let problem = current_problem(value, Some(Ok(max)), "Current"@);
            &&& (fb.1 == Tone::Success <==> problem is None)
            &&& problem matches Some(p) ==> fb.0 == p
            &&& problem is None ==> fb.0 == "Valid current value"@
        }),
{
    reveal_strlit("Current");
    reveal_strlit(" cannot be zero");
    reveal_strlit("Current cannot be zero");
    reveal_strlit(" too high (max: ");
    reveal_strlit("Current too high (max: ");
    assert("Current"@ + " cannot be zero"@ =~= "Current cannot be zero"@);
    assert("Current"@ + " too high (max: "@ =~= "Current too high (max: "@);
}

/// While no device is connected, no message of the controller window starts
/// device work other than connecting or releasing the device.
pub proof fn lemma_no_device_work_while_disconnected(
    old: GuiState,
    new: GuiState,
    m: GuiMessage,
    task: GuiTask,
)
    requires
        transition(old, new, m, task),
        !old.connected,
    ensures
        task is Idle || task is Connect || task is ReleaseDevice,
{
}

/// Only a connection attempt while neither connected nor connecting starts a
/// connection, and then with the window's configuration.
pub proof fn lemma_connect_only_when_idle(old: GuiState, new: GuiState, m: GuiMessage, task: GuiTask)
    requires
        transition(old, new, m, task),
        task is Connect,
    ensures
        m is Connect,
        !old.connected,
        !old.connecting,
        new.connecting,
        task == (GuiTask::Connect {
            port_name: old.port_name,
            auto_detect: old.auto_detect,
            optimize_transitions: old.optimize_transitions,
            verbose: old.verbose,
        }),
{
}

/// A window launched to detect the port connects at once: its first message
/// starts a connection with the launch's configuration.
pub proof fn lemma_detecting_launch_connects(
    launch: GuiLaunch,
    first_state: GuiState,
    first: Option<GuiMessage>,
    next: GuiState,
    task: GuiTask,
)
    requires
        launch.begins(first_state, first),
        launch.auto_detect,
        first matches Some(m) && transition(first_state, next, m, task),
    ensures
        task == (GuiTask::Connect {
            port_name: launch.port_name,
            auto_detect: launch.auto_detect,
            optimize_transitions: launch.optimize_transitions,
            verbose: launch.verbose,
        }),
        next.connecting,
        next.status_message@ == "Connecting..."@,
{
}

/// A successful operation outcome clears the window's error and shows its
/// text; a failed one keeps the status line and shows the failure.
pub proof fn lemma_outcome_shown(old: GuiState, new: GuiState, result: Result<String, LumidoxError>, task: GuiTask)
    requires
        transition(old, new, GuiMessage::OperationResult(result), task),
    ensures
        task is Idle,
        result matches Ok(t) ==> new.status_message == t && new.error_message is None,
        result matches Err(e) ==> new.status_message == old.status_message && (new.error_message matches Some(
            s,
        ) && s@ == "Operation failed: "@ + e.text()),
{
}

/// An input field reads back what was typed into it, the other fields keep
/// their values, and a current field is valid exactly when the typed text
/// is empty or a current from 1 to 5000.
pub proof fn lemma_input_read_back(old: UnifiedState, new: UnifiedState, name: Seq<char>, value: Seq<char>)
    requires
        UnifiedState::input_update(old, new, name, value),
    ensures
        new.input_value(name) == value,
        forall|other: Seq<char>|
            other != name ==> #[trigger] new.input_value(other) == old.input_value(other),
        name == "arm_current"@ ==> (new.app_state.validation.arm_current_valid
            <==> current_input_accepted(value)),
        name == "stage_current"@ ==> (new.app_state.validation.stage_current_valid
            <==> current_input_accepted(value)),
{
    assert forall|other: Seq<char>| other != name implies #[trigger] new.input_value(other)
        == old.input_value(other) by {
        assert(new.app_state.field(other) == old.app_state.field(other));
    }
}

/// Typing into a named field through the message loop is kept: the field
/// then reads back the typed text.
pub proof fn lemma_typed_input_is_kept(
    old: UnifiedState,
    new: UnifiedState,
    field_name: String,
    value: String,
    r: crate::handlers::HandlerCommand,
)
    requires
        field_name@.len() > 0,
        HandlerCoordinator::update_outcome(
            old,
            new,
            Message::Ui(UiMessage::InputUpdated { field_name, value }),
            r,
        ),
    ensures
        new.input_value(field_name@) == value@,
{
}

/// A stored value is read back from the cache for as long as the cache is
/// valid after its update, and not after; a cache marked stale gives nothing
/// back and asks for a refresh whenever the device is connected.
pub proof fn lemma_cache_reads_back(d: DeviceState, elapsed: nat)
    ensures
        (d.cached_parameters.last_update is Some && elapsed < d.cached_parameters.cache_duration)
            ==> {
            &&& d.arm_current_at(elapsed) == d.cached_parameters.arm_current
            &&& d.fire_current_at(elapsed) == d.cached_parameters.fire_current
            &&& d.remote_mode_at(elapsed) == d.cached_parameters.remote_mode
            &&& d.device_info_at(elapsed) == d.cached_parameters.device_info
            &&& !d.needs_refresh_at(elapsed)
        },
        elapsed >= d.cached_parameters.cache_duration ==> d.arm_current_at(elapsed) is None
            && d.needs_refresh_at(elapsed) == d.connected(),
        d.stale().arm_current_at(elapsed) is None,
        d.stale().fire_current_at(elapsed) is None,
        d.stale().remote_mode_at(elapsed) is None,
        d.stale().device_info_at(elapsed) is None,
        d.stale().needs_refresh_at(elapsed) == d.connected(),
{
}

/// Toggling verbose mode twice through the message loop restores the device
/// state; only the notification differs.
pub proof fn lemma_verbose_toggle_twice(
    s0: UnifiedState,
    s1: UnifiedState,
    s2: UnifiedState,
    r1: crate::handlers::HandlerCommand,
    r2: crate::handlers::HandlerCommand,
)
    requires
        HandlerCoordinator::update_outcome(s0, s1, Message::Ui(UiMessage::ToggleVerbose), r1),
        HandlerCoordinator::update_outcome(s1, s2, Message::Ui(UiMessage::ToggleVerbose), r2),
    ensures
        s2.device_state == s0.device_state,
        s2.app_state == (AppState { notifications: s2.app_state.notifications, ..s0.app_state }),
{
}

/// Toggling optimized transitions twice through the message loop restores
/// the device state; only the notification differs.
pub proof fn lemma_optimization_toggle_twice(
    s0: UnifiedState,
    s1: UnifiedState,
    s2: UnifiedState,
    r1: crate::handlers::HandlerCommand,
    r2: crate::handlers::HandlerCommand,
)
    requires
        HandlerCoordinator::update_outcome(s0, s1, Message::Ui(UiMessage::ToggleOptimization), r1),
        HandlerCoordinator::update_outcome(s1, s2, Message::Ui(UiMessage::ToggleOptimization), r2),
    ensures
        s2.device_state == s0.device_state,
        s2.app_state == (AppState { notifications: s2.app_state.notifications, ..s0.app_state }),
{
}

/// The UI message handler: two verbose toggles, or two optimization
/// toggles, restore the device state, each toggle flipping its flag; a
/// resize changes nothing.
pub proof fn lemma_ui_toggles_and_resize(s0: UnifiedState, s1: UnifiedState, s2: UnifiedState)
    ensures
        HandlerCoordinator::ui_effect(s0, s1, UiMessage::ToggleVerbose) ==> s1.device_state.verbose
            == !s0.device_state.verbose,
        (HandlerCoordinator::ui_effect(s0, s1, UiMessage::ToggleVerbose)
            && HandlerCoordinator::ui_effect(s1, s2, UiMessage::ToggleVerbose)) ==> s2.device_state
            == s0.device_state,
        HandlerCoordinator::ui_effect(s0, s1, UiMessage::ToggleOptimization)
            ==> s1.device_state.optimize_transitions == !s0.device_state.optimize_transitions,
        (HandlerCoordinator::ui_effect(s0, s1, UiMessage::ToggleOptimization)
            && HandlerCoordinator::ui_effect(s1, s2, UiMessage::ToggleOptimization))
            ==> s2.device_state == s0.device_state,
        forall|w: u32, h: u32|
            #[trigger] HandlerCoordinator::ui_effect(
                s0,
                s1,
                UiMessage::WindowResized { width: w, height: h },
            ) ==> s1 == s0,
{
}

/// An accepted device operation issues the command for that very
/// operation, with the message's own parameters: a stage firing fires that
/// stage, a custom firing fires at that current, an ARM current setting sets
/// that current, arming arms, a status read or a parameter refresh reads the
/// status, and a connection connects with the message's configuration. The
/// state is then busy.
pub proof fn lemma_device_commands(old: UnifiedState, new: UnifiedState, d: DeviceMessage, r: HandlerCommand)
    requires
        HandlerCoordinator::update_outcome(old, new, Message::Device(d), r),
    ensures
        d matches DeviceMessage::FireStage { stage } ==> ((old.connected() && !old.busy() && 1
            <= stage <= 5) ==> r == (HandlerCommand::FireStage { stage }) && new.app_state.busy),
        d matches DeviceMessage::FireCustom { current } ==> ((old.connected() && !old.busy() && 1
            <= current <= MAX_MESSAGE_CURRENT) ==> r == (HandlerCommand::FireCustom { current })
            && new.app_state.busy),
        d matches DeviceMessage::SetArmCurrent { current } ==> ((old.connected() && 1 <= current
            <= MAX_MESSAGE_CURRENT) ==> r == (HandlerCommand::SetArmCurrent { current })
            && new.app_state.busy),
        (d is ArmDevice && old.connected() && !old.busy()) ==> r == HandlerCommand::ArmDevice
            && new.app_state.busy,
        ((d is ReadDeviceStatus || d is RefreshParameters) && old.connected()) ==> r
            == HandlerCommand::ReadDeviceStatus && new.app_state.busy,
        d matches DeviceMessage::Connect { port_name, auto_detect, verbose, optimize_transitions }
            ==> r == (HandlerCommand::Connect {
            port_name,
            auto_detect,
            verbose,
            optimize_transitions,
        }) && new.app_state.busy,
{
}

/// A successful status result caches its ARM current as the ARM current
/// and its FIRE current as the FIRE current, and the cache gives them back
/// for as long as it stays valid.
pub proof fn lemma_status_result_cached(
    old: UnifiedState,
    new: UnifiedState,
    device_mode: Option<DeviceMode>,
    arm_current: Option<u16>,
    fire_current: Option<u16>,
    error: Option<String>,
    r: HandlerCommand,
    elapsed: nat,
)
    requires
        HandlerCoordinator::update_outcome(
            old,
            new,
            Message::DeviceOperationCompleted(
                DeviceOperationResult::StatusResult {
                    success: true,
                    device_mode,
                    arm_current,
                    fire_current,
                    error,
                },
            ),
            r,
        ),
    ensures
        arm_current matches Some(a) ==> new.device_state.cached_parameters.arm_current == Some(a),
        fire_current matches Some(f) ==> new.device_state.cached_parameters.fire_current == Some(f),
        device_mode matches Some(m) ==> new.device_state.cached_parameters.remote_mode == Some(m),
        arm_current matches Some(a) ==> (elapsed < old.device_state.cached_parameters.cache_duration
            ==> new.device_state.arm_current_at(elapsed) == Some(a)),
        fire_current matches Some(f) ==> (elapsed
            < old.device_state.cached_parameters.cache_duration ==> new.device_state.fire_current_at(
            elapsed,
        ) == Some(f)),
{
}

/// Device operations take stages 1 to 5 and currents from 1 to 5000 mA;
/// every other operation has no parameter to refuse.
pub proof fn lemma_parameter_ranges(d: DeviceMessage)
    ensures
        d matches DeviceMessage::FireStage { stage } ==> (d.parameter_problem() is None <==> 1
            <= stage <= 5),
        d matches DeviceMessage::ReadStageParameters { stage } ==> (d.parameter_problem() is None
            <==> 1 <= stage <= 5),
        d matches DeviceMessage::FireCustom { current } ==> (d.parameter_problem() is None <==> 1
            <= current <= MAX_MESSAGE_CURRENT),
        d matches DeviceMessage::SetArmCurrent { current } ==> (d.parameter_problem() is None
            <==> 1 <= current <= MAX_MESSAGE_CURRENT),
        !(d is FireStage || d is ReadStageParameters || d is FireCustom || d is SetArmCurrent)
            ==> d.parameter_problem() is None,
{
}

/// While a device is connected, each device button of the controller window
/// starts the work it names, with its own stage or typed current, and
/// changes nothing else; connecting again starts nothing.
pub proof fn lemma_connected_window_work(old: GuiState, new: GuiState, m: GuiMessage, task: GuiTask)
    requires
        transition(old, new, m, task),
        old.connected,
    ensures
        m matches GuiMessage::FireStage(s) ==> task == GuiTask::FireStage(s) && new == old,
        m is TurnOff ==> task is TurnOff && new == old,
        m is ArmDevice ==> task is ArmDevice && new == old,
        m is RefreshStatus ==> task is RefreshStatus && new == old,
        m is FireWithCurrent ==> (parse_unsigned(old.custom_current@, 65535) matches Some(c)
            ==> task == GuiTask::FireWithCurrent(c as u16) && new == old),
        m is Connect ==> task is Idle && new == old,
{
}

/// The connection through the message loop: connecting starts a connection
/// attempt, disconnecting leaves the device disconnected with nothing
/// cached, a successful connection result connects the device, and a failed
/// one leaves it unconnected with the error it carried. Every recorded
/// result ends the busy state and records whether it succeeded.
pub proof fn lemma_connection_lifecycle(old: UnifiedState, new: UnifiedState, m: Message, r: HandlerCommand)
    requires
        HandlerCoordinator::update_outcome(old, new, m, r),
    ensures
        m matches Message::Device(d) ==> (d is Connect ==> new.device_state.connection_state
            == ConnectionState::Connecting && !new.connected()),
        m matches Message::Device(d) ==> (d is Disconnect ==> new.device_state.connection_state
            == ConnectionState::Disconnected && new.device_state.cached_parameters.is_empty()),
        m matches Message::DeviceOperationCompleted(res) ==> (r == HandlerCommand::Nothing
            && !new.app_state.busy && new.app_state.last_operation_success == Some(
            res.succeeded(),
        )),
        m matches Message::DeviceOperationCompleted(res) ==> (res matches DeviceOperationResult::ConnectionResult { success, port_name, .. }
            ==> (success ==> new.connected() && (port_name is Some ==> new.device_state.port_name
            == port_name))),
        m matches Message::DeviceOperationCompleted(res) ==> (res matches DeviceOperationResult::ConnectionResult { success, error, .. }
            ==> (!success ==> !new.connected() && (error matches Some(e)
            ==> (new.device_state.connection_state matches ConnectionState::Failed(x) && x@
            == e@)))),
{
}

/// The connection in the controller window: a reported connection connects
/// the window with the device's information and no error, a failed one
/// leaves it unconnected showing the error, and disconnecting releases the
/// device and forgets its information.
pub proof fn lemma_window_connection(old: GuiState, new: GuiState, m: GuiMessage, task: GuiTask)
    requires
        transition(old, new, m, task),
    ensures
        m matches GuiMessage::ConnectionSuccess(info) ==> (new.connected && !new.connecting
            && new.device_info == Some(info) && new.error_message is None && task is Idle),
        m matches GuiMessage::ConnectionFailed(e) ==> (!new.connected && !new.connecting
            && new.error_message == Some(e) && task is Idle),
        m is Disconnect ==> !new.connected && new.device_info is None && task is ReleaseDevice,
{
}

/// The tone of each device mode, the same in every view that shows it:
/// local control needs attention, standby is ready, armed is armed, and
/// remote control active is good.
pub open spec fn tone_of(m: DeviceMode) -> Tone {
    match m {
        DeviceMode::Local => Tone::Caution,
        DeviceMode::Standby => Tone::Ready,
        DeviceMode::Armed => Tone::Armed,
        DeviceMode::Remote => Tone::Success,
    }
}

/// Every view of a reported device mode shows it in the same tone: the
/// mode line, the remote control line, the indicator and the summary.
pub proof fn lemma_mode_views_agree(m: DeviceMode)
    ensures
        StatusDisplay::mode_line(Some(Ok(m))).1 == tone_of(m),
        StatusDisplay::remote_line(Some(Ok(m))).2 == tone_of(m),
        DeviceControls::indicator(true, Some(Ok(m))).1 == tone_of(m),
        StatusDisplay::summary(true, Some(Ok(m))).1 == tone_of(m),
{
}

/// Different device modes are shown with different texts, in the mode line
/// and in the remote control line.
pub proof fn lemma_mode_texts_distinct(m1: DeviceMode, m2: DeviceMode)
    ensures
        m1 != m2 ==> StatusDisplay::mode_line(Some(Ok(m1))).0 != StatusDisplay::mode_line(
            Some(Ok(m2)),
        ).0,
        m1 != m2 ==> StatusDisplay::remote_line(Some(Ok(m1))).0 != StatusDisplay::remote_line(
            Some(Ok(m2)),
        ).0,
{
    reveal_strlit("Local Mode");
    reveal_strlit("Remote Standby");
    reveal_strlit("Armed");
    reveal_strlit("Remote Active");
    reveal_strlit("Local Control");
    reveal_strlit("Armed State");
    assert("Local Control"@[0] != "Remote Active"@[0]);
    assert("Local Control"@.len() != "Remote Standby"@.len());
    assert("Local Control"@.len() != "Armed State"@.len());
    assert("Remote Standby"@.len() != "Armed State"@.len());
    assert("Remote Standby"@.len() != "Remote Active"@.len());
    assert("Armed State"@.len() != "Remote Active"@.len());
    assert("Local Mode"@.len() != "Remote Standby"@.len());
    assert("Local Mode"@.len() != "Armed"@.len());
    assert("Local Mode"@.len() != "Remote Active"@.len());
    assert("Remote Standby"@.len() != "Armed"@.len());
    assert("Armed"@.len() != "Remote Active"@.len());
}

} // verus!
