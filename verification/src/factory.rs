//! The panels of the application window, built from its state: what each
//! shows and which message each button sends.

use vstd::prelude::*;
use vstd::string::*;

use crate::device_messages::DeviceMessage;
use crate::device_state::DeviceState;
use crate::messages::{Message, MessageFactory};
use crate::text::{copy_text, decimal, text_then_number, text_with_number};
use crate::unified_state::UnifiedState;

verus! {

/// How a button is drawn.
#[derive(Debug, Clone, Copy, PartialEq, Eq, Structural)]
pub enum ButtonStyle {
    /// A stage button.
    Stage,
    /// The main action.
    Primary,
    /// A secondary action.
    Secondary,
    /// An action to take with care.
    Warning,
    /// A dangerous action.
    Danger,
}

/// How a status text is drawn.
#[derive(Debug, Clone, Copy, PartialEq, Eq, Structural)]
pub enum TextStyle {
    /// Good news.
    Success,
    /// A failure.
    Error,
    /// Something under way.
    Warning,
    /// Plain.
    Normal,
}

/// A button of the application window.
#[derive(Debug)]
pub struct ActionButton {
    /// The label.
    pub label: String,
    /// How it is drawn.
    pub style: ButtonStyle,
    /// The message a press sends.
    pub on_press: Message,
}

/// Whether a button has this label, style and message.
pub open spec fn action_is(b: ActionButton, label: Seq<char>, style: ButtonStyle, msg: Message) -> bool {
    b.label@ == label && b.style == style && b.on_press == msg
}

/// A button.
fn action(label: &str, style: ButtonStyle, on_press: Message) -> (b: ActionButton)
    ensures
        action_is(b, label@, style, on_press),
{
    ActionButton { label: copy_text(label), style, on_press }
}

/// The stage firing panel.
#[derive(Debug)]
pub struct StagePanel {
    /// The panel's title.
    pub title: String,
    /// Stages 1 to 5.
    pub buttons: Vec<ActionButton>,
    /// The custom current heading.
    pub custom_title: String,
    /// How to fire with a custom current.
    pub custom_hint: String,
}

/// The device control panel.
#[derive(Debug)]
pub struct DevicePanel {
    /// The panel's title.
    pub title: String,
    /// Connect, or disconnect and arm.
    pub connection_row: Vec<ActionButton>,
    /// Turn off and shut down, while connected.
    pub operation_row: Vec<ActionButton>,
}

/// The ARM current panel.
#[derive(Debug)]
pub struct CurrentPanel {
    /// The ARM current field's text.
    pub input: String,
    /// Its validation message, if any.
    pub validation: Option<String>,
    /// Whether the panel takes input: only while connected.
    pub enabled: bool,
}

/// The status panel.
#[derive(Debug)]
pub struct StatusPanel {
    /// The panel's title.
    pub title: String,
    /// The connection status.
    pub connection: String,
    /// How the connection status is drawn.
    pub connection_style: TextStyle,
    /// The operation status.
    pub operation: String,
    /// How the operation status is drawn.
    pub operation_style: TextStyle,
    /// The cached currents, or that they are not available.
    pub parameters: Vec<String>,
}

/// The information panel.
#[derive(Debug)]
pub struct InfoPanelView {
    /// The panel's title.
    pub title: String,
    /// The device's identification, or that none is available.
    pub info_text: String,
    /// The button that reads the identification, if offered.
    pub action: Option<ActionButton>,
    /// A hint in place of the button, if any.
    pub hint: Option<String>,
}

/// Builds the panels of the application window from its state.
pub struct ComponentFactory;

impl ComponentFactory {
    /// Whether a stage panel offers stages 1 to 5.
    pub open spec fn stage_panel_shows(p: StagePanel) -> bool {
        &&& p.title@ == "Stage Controls"@
        &&& p.buttons@.len() == 5
        &&& forall|i: int|
            0 <= i < 5 ==> action_is(
                #[trigger] p.buttons@[i],
                "Stage "@ + decimal((i + 1) as nat),
                ButtonStyle::Stage,
                Message::Device(DeviceMessage::FireStage { stage: (i + 1) as u8 }),
            )
        &&& p.custom_title@ == "Custom Current Firing"@
        &&& p.custom_hint@ == "Enter current value and use ARM current controls below"@
    }

    /// The stage panel: a button firing each of stages 1 to 5.
    pub fn create_stage_controls(state: &UnifiedState) -> (p: StagePanel)
        ensures
            Self::stage_panel_shows(p),
    {
        let mut buttons: Vec<ActionButton> = Vec::new();
        let mut stage: u8 = 1;
        while stage <= 5
            invariant
                1 <= stage <= 6,
                buttons@.len() == stage - 1,
                forall|i: int|
                    0 <= i < stage - 1 ==> action_is(
                        #[trigger] buttons@[i],
                        "Stage "@ + decimal((i + 1) as nat),
                        ButtonStyle::Stage,
                        Message::Device(DeviceMessage::FireStage { stage: (i + 1) as u8 }),
                    ),
            decreases 6 - stage,
        {
            buttons.push(
                ActionButton {
                    label: text_then_number("Stage ", stage as u64),
                    style: ButtonStyle::Stage,
                    on_press: MessageFactory::fire_stage(stage),
                },
            );
            stage = stage + 1;
        }
        StagePanel {
            title: copy_text("Stage Controls"),
            buttons,
            custom_title: copy_text("Custom Current Firing"),
            custom_hint: copy_text("Enter current value and use ARM current controls below"),
        }
    }

    /// Whether a device panel offers what a state allows: disconnect and arm,
    /// then turn off and shut down, while connected; else connect with the
    /// state's configuration.
    pub open spec fn device_panel_shows(p: DevicePanel, s: UnifiedState) -> bool {
        &&& p.title@ == "Device Controls"@
        &&& s.connected() ==> {
            &&& p.connection_row@.len() == 2
            &&& action_is(
                p.connection_row@[0],
                "Disconnect"@,
                ButtonStyle::Warning,
                Message::Device(DeviceMessage::Disconnect),
            )
            &&& action_is(
                p.connection_row@[1],
                "Arm Device"@,
                ButtonStyle::Primary,
                Message::Device(DeviceMessage::ArmDevice),
            )
            &&& p.operation_row@.len() == 2
            &&& action_is(
                p.operation_row@[0],
                "Turn Off"@,
                ButtonStyle::Warning,
                Message::Device(DeviceMessage::TurnOffDevice),
            )
            &&& action_is(
                p.operation_row@[1],
                "Shutdown"@,
                ButtonStyle::Danger,
                Message::Device(DeviceMessage::ShutdownDevice),
            )
        }
        &&& !s.connected() ==> {
            &&& p.connection_row@.len() == 1
            &&& action_is(
                p.connection_row@[0],
                "Connect"@,
                ButtonStyle::Primary,
                Message::Device(
                    DeviceMessage::Connect {
                        port_name: s.device_state.port_name,
                        auto_detect: s.device_state.auto_detect,
                        verbose: s.device_state.verbose,
                        optimize_transitions: s.device_state.optimize_transitions,
                    },
                ),
            )
            &&& p.operation_row@.len() == 0
        }
    }

    /// The device panel.
    pub fn create_device_controls(state: &UnifiedState) -> (p: DevicePanel)
        ensures
            Self::device_panel_shows(p, *state),
    {
        let mut connection_row: Vec<ActionButton> = Vec::new();
        let mut operation_row: Vec<ActionButton> = Vec::new();
        if state.is_device_connected() {
            connection_row.push(
                action("Disconnect", ButtonStyle::Warning, MessageFactory::disconnect_device()),
            );
            connection_row.push(
                action("Arm Device", ButtonStyle::Primary, Message::Device(DeviceMessage::ArmDevice)),
            );
            operation_row.push(
                action("Turn Off", ButtonStyle::Warning, Message::Device(DeviceMessage::TurnOffDevice)),
            );
            operation_row.push(
                action("Shutdown", ButtonStyle::Danger, Message::Device(DeviceMessage::ShutdownDevice)),
            );
        } else {
            let connect = MessageFactory::connect_device(
                state.device_state.port_name.clone(),
                state.device_state.auto_detect,
                state.device_state.verbose,
                state.device_state.optimize_transitions,
            );
            connection_row.push(action("Connect", ButtonStyle::Primary, connect));
        }
        DevicePanel { title: copy_text("Device Controls"), connection_row, operation_row }
    }

    /// The ARM current panel: the field's text and validation message, taking
    /// input only while connected.
    pub fn create_current_controls(state: &UnifiedState) -> (p: CurrentPanel)
        ensures
            p.input@ == state.input_value("arm_current"@),
            p.validation is Some <==> state.app_state.validation.arm_current_message is Some,
            p.validation matches Some(m) ==> m@
                == state.app_state.validation.arm_current_message.unwrap()@,
            p.enabled == state.connected(),
    {
        let validation = match state.get_arm_current_validation() {
            Some(m) => Some(copy_text(m)),
            None => None,
        };
        CurrentPanel {
            input: state.get_arm_current_input(),
            validation,
            enabled: state.is_device_connected(),
        }
    }

    /// Whether lines show the currents the cache gives `elapsed` milliseconds
    /// after its last update: both currents while both are there and the
    /// cache is valid, else that they are not available.
    pub open spec fn parameter_lines(lines: Seq<String>, d: DeviceState, elapsed: nat) -> bool {
        match (d.arm_current_at(elapsed), d.fire_current_at(elapsed)) {
            (Some(a), Some(f)) => {
                &&& lines.len() == 2
                &&& lines[0]@ == "ARM Current: "@ + decimal(a as nat) + "mA"@
                &&& lines[1]@ == "FIRE Current: "@ + decimal(f as nat) + "mA"@
            },
            _ => lines.len() == 1 && lines[0]@ == "Parameters not available"@,
        }
    }

    /// Whether a status panel shows a state `elapsed` milliseconds after the
    /// cache's last update: its connection and operation status, and its
    /// cached currents when both are valid, else that they are not available.
    pub open spec fn status_panel_shows(p: StatusPanel, s: UnifiedState, elapsed: nat) -> bool {
        &&& p.title@ == "Device Status"@
        &&& p.connection@ == DeviceState::connection_text(s.device_state.connection_state)
        &&& p.connection_style == if s.connected() {
            TextStyle::Success
        } else {
            TextStyle::Error
        }
        &&& p.operation@ == DeviceState::operation_text(s.device_state.operation_state)
        &&& p.operation_style == if s.busy() {
            TextStyle::Warning
        } else {
            TextStyle::Normal
        }
        &&& Self::parameter_lines(p.parameters@, s.device_state, elapsed)
    }

    /// The status panel `elapsed_ms` milliseconds after the cache's last
    /// update.
    pub fn create_status_display_at(state: &UnifiedState, elapsed_ms: u128) -> (p: StatusPanel)
        ensures
            Self::status_panel_shows(p, *state, elapsed_ms as nat),
    {
        let connected = state.is_device_connected();
        let busy = state.is_busy();
        let mut parameters: Vec<String> = Vec::new();
        match (
            state.device_state.get_arm_current_after(elapsed_ms),
            state.device_state.get_fire_current_after(elapsed_ms),
        ) {
            (Some(arm), Some(fire)) => {
                parameters.push(text_with_number("ARM Current: ", arm as u64, "mA"));
                parameters.push(text_with_number("FIRE Current: ", fire as u64, "mA"));
            },
            _ => {
                parameters.push(copy_text("Parameters not available"));
            },
        }
        StatusPanel {
            title: copy_text("Device Status"),
            connection: state.get_connection_status_display(),
            connection_style: if connected {
                TextStyle::Success
            } else {
                TextStyle::Error
            },
            operation: state.get_operation_status_display(),
            operation_style: if busy {
                TextStyle::Warning
            } else {
                TextStyle::Normal
            },
            parameters,
        }
    }

    /// The status panel, with the cache's validity read from the clock once.
    pub fn create_status_display(state: &UnifiedState) -> (p: StatusPanel)
        ensures
            exists|e: nat| Self::status_panel_shows(p, *state, e),
            state.device_state.cached_parameters.last_update is None ==> p.parameters@.len() == 1,
    {
        let e = state.device_state.cached_parameters.age_ms();
        let p = Self::create_status_display_at(state, e);
        assert(Self::status_panel_shows(p, *state, e as nat));
        p
    }

    /// Whether an information panel shows this identification text, if any,
    /// for a state.
    pub open spec fn info_panel_shows(p: InfoPanelView, s: UnifiedState, shown: Option<Seq<char>>) -> bool {
        &&& p.title@ == "Device Information"@
        &&& match shown {
            Some(t) => {
                &&& p.info_text@ == t
                &&& p.action matches Some(b) && action_is(
                    b,
                    "Refresh Info"@,
                    ButtonStyle::Secondary,
                    Message::Device(DeviceMessage::ReadDeviceInfo),
                )
                &&& p.hint is None
            },
            None => {
                &&& p.info_text@ == "No device information available"@
                &&& s.connected() ==> (p.action matches Some(b) && action_is(
                    b,
                    "Read Device Info"@,
                    ButtonStyle::Primary,
                    Message::Device(DeviceMessage::ReadDeviceInfo),
                )) && p.hint is None
                &&& !s.connected() ==> p.action is None && (p.hint matches Some(h) && h@
                    == "Connect device to read information"@)
            },
        }
    }

    /// The information panel `elapsed_ms` milliseconds after the cache's last
    /// update: the cached identification with a refresh button while the
    /// cache is valid; else a button to read it while connected, or a hint
    /// to connect.
    pub fn create_info_display_at(state: &UnifiedState, elapsed_ms: u128) -> (p: InfoPanelView)
        ensures
            Self::info_panel_shows(p, *state, state.device_info_display_at(elapsed_ms as nat)),
    {
        let shown = state.get_device_info_display_after(elapsed_ms);
        match &shown {
            Some(info_text) => InfoPanelView {
                title: copy_text("Device Information"),
                info_text: info_text.clone(),
                action: Some(
                    action(
                        "Refresh Info",
                        ButtonStyle::Secondary,
                        Message::Device(DeviceMessage::ReadDeviceInfo),
                    ),
                ),
                hint: None,
            },
            None => {
                let (action_button, hint) = if state.is_device_connected() {
                    (
                        Some(
                            action(
                                "Read Device Info",
                                ButtonStyle::Primary,
                                Message::Device(DeviceMessage::ReadDeviceInfo),
                            ),
                        ),
                        None,
                    )
                } else {
                    (None, Some(copy_text("Connect device to read information")))
                };
                InfoPanelView {
                    title: copy_text("Device Information"),
                    info_text: copy_text("No device information available"),
                    action: action_button,
                    hint,
                }
            },
        }
    }

    /// The information panel, with the cache's validity read from the clock.
    pub fn create_info_display(state: &UnifiedState) -> (p: InfoPanelView)
        ensures
            exists|e: nat| Self::info_panel_shows(p, *state, state.device_info_display_at(e)),
            state.device_state.cached_parameters.last_update is None ==> Self::info_panel_shows(
                p,
                *state,
                None,
            ),
    {
        let e = state.device_state.cached_parameters.age_ms();
        let p = Self::create_info_display_at(state, e);
        assert(Self::info_panel_shows(p, *state, state.device_info_display_at(e as nat)));
        p
    }
}

} // verus!
