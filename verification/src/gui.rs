//! The live controller window: its state, its messages, and the decisions
//! that turn a message into the next state and the device work to start.
//! The window toolkit and the device calls stay outside; they hand the
//! outcomes of the device work back to the functions here.

use vstd::prelude::*;
use vstd::string::*;

use crate::error::{DeviceInfo, LumidoxError};
use crate::text::{
    copy_text, decimal, join2, parse_u16_text, parse_unsigned, text_then_number, text_with_number,
};

verus! {

/// State of the controller window.
#[derive(Debug)]
pub struct AppState {
    /// Port to connect to, if one was named.
    pub port_name: Option<String>,
    /// Whether to search for the device's port.
    pub auto_detect: bool,
    /// Whether device operations report verbosely.
    pub verbose: bool,
    /// Whether stage transitions are optimized.
    pub optimize_transitions: bool,
    /// Whether a device is connected.
    pub connected: bool,
    /// Whether a connection attempt is under way.
    pub connecting: bool,
    /// The status line.
    pub status_message: String,
    /// The error shown, if any.
    pub error_message: Option<String>,
    /// Identification of the connected device, if any.
    pub device_info: Option<String>,
    /// The selected stage.
    pub selected_stage: u8,
    /// The custom current field, as typed.
    pub custom_current: String,
}

impl AppState {
    /// Whether this is the state the window starts in, apart from the
    /// connection configuration.
    pub open spec fn is_fresh(&self) -> bool {
        &&& !self.connected
        &&& !self.connecting
        &&& self.status_message@ == "Ready to connect"@
        &&& self.error_message is None
        &&& self.device_info is None
        &&& self.selected_stage == 1
        &&& self.custom_current@ == "500"@
    }
}

impl Default for AppState {
    /// Disconnected, ready to connect, auto-detecting the port with
    /// optimized transitions, stage 1 selected and a custom current of 500.
    fn default() -> (s: Self)
        ensures
            s.is_fresh(),
            s.port_name is None,
            s.auto_detect,
            !s.verbose,
            s.optimize_transitions,
    {
        AppState {
            port_name: None,
            auto_detect: true,
            verbose: false,
            optimize_transitions: true,
            connected: false,
            connecting: false,
            status_message: copy_text("Ready to connect"),
            error_message: None,
            device_info: None,
            selected_stage: 1,
            custom_current: copy_text("500"),
        }
    }
}

/// Messages of the controller window.
#[derive(Debug)]
pub enum Message {
    /// Connect to the device.
    Connect,
    /// Disconnect from the device.
    Disconnect,
    /// A connection was made; the device's identification.
    ConnectionSuccess(String),
    /// A connection attempt failed; why.
    ConnectionFailed(String),
    /// Fire a stage.
    FireStage(u8),
    /// Fire with the custom current.
    FireWithCurrent,
    /// Arm the device.
    ArmDevice,
    /// Turn the device off.
    TurnOff,
    /// The outcome of a device operation.
    OperationResult(Result<String, LumidoxError>),
    /// A stage was selected.
    StageSelected(u8),
    /// The custom current field changed.
    CurrentChanged(String),
    /// Refresh the device status.
    RefreshStatus,
    /// Dismiss the error.
    ClearError,
    /// Periodic update.
    Tick,
}

impl Clone for Message {
    fn clone(&self) -> Self {
        match self {
            Message::Connect => Message::Connect,
            Message::Disconnect => Message::Disconnect,
            Message::ConnectionSuccess(info) => Message::ConnectionSuccess(info.clone()),
            Message::ConnectionFailed(error) => Message::ConnectionFailed(error.clone()),
            Message::FireStage(stage) => Message::FireStage(*stage),
            Message::FireWithCurrent => Message::FireWithCurrent,
            Message::ArmDevice => Message::ArmDevice,
            Message::TurnOff => Message::TurnOff,
            Message::OperationResult(Ok(text)) => Message::OperationResult(Ok(text.clone())),
            Message::OperationResult(Err(error)) => Message::OperationResult(Err(error.clone())),
            Message::StageSelected(stage) => Message::StageSelected(*stage),
            Message::CurrentChanged(value) => Message::CurrentChanged(value.clone()),
            Message::RefreshStatus => Message::RefreshStatus,
            Message::ClearError => Message::ClearError,
            Message::Tick => Message::Tick,
        }
    }
}

/// Device work that a message starts; its outcome comes back as a message.
#[derive(Debug)]
pub enum GuiTask {
    /// No work.
    Idle,
    /// Open the device with this configuration; the outcome comes back
    /// through `connection_message`.
    Connect { port_name: Option<String>, auto_detect: bool, optimize_transitions: bool, verbose: bool },
    /// Release the device, then send `ClearError`.
    ReleaseDevice,
    /// Fire a stage; the outcome comes back through `stage_fire_message`.
    FireStage(u8),
    /// Turn the device off; the outcome comes back through `device_control_message`.
    TurnOff,
    /// Arm the device; the outcome comes back through `device_control_message`.
    ArmDevice,
    /// Fire with a current; the outcome comes back through `custom_fire_message`.
    FireWithCurrent(u16),
    /// Read the device status; the outcome comes back through `refresh_message`.
    RefreshStatus,
}

/// The state with only the error changed, to this text.
pub open spec fn with_error(old: AppState, new: AppState, error: Seq<char>) -> bool {
    &&& new == AppState { error_message: new.error_message, ..old }
    &&& new.error_message matches Some(e) && e@ == error
}

/// How the window answers a device operation asked for while no device is
/// connected: the state only shows `Device not connected`.
pub open spec fn refused_unconnected(old: AppState, new: AppState, task: GuiTask) -> bool {
    task is Idle && with_error(old, new, "Device not connected"@)
}

/// How a message changes the window and which device work it starts.
pub open spec fn transition(old: AppState, new: AppState, msg: Message, task: GuiTask) -> bool {
    match msg {
        Message::Connect => if !old.connecting && !old.connected {
            &&& new == AppState {
                connecting: true,
                status_message: new.status_message,
                error_message: None,
                ..old
            }
            &&& new.status_message@ == "Connecting..."@
            &&& task == GuiTask::Connect {
                port_name: old.port_name,
                auto_detect: old.auto_detect,
                optimize_transitions: old.optimize_transitions,
                verbose: old.verbose,
            }
        } else {
            new == old && task is Idle
        },
        Message::ConnectionSuccess(info) => {
            &&& new == AppState {
                connecting: false,
                connected: true,
                status_message: new.status_message,
                error_message: None,
                device_info: Some(info),
                ..old
            }
            &&& new.status_message@ == "Connected successfully"@
            &&& task is Idle
        },
        Message::ConnectionFailed(error) => {
            &&& new == AppState {
                connecting: false,
                connected: false,
                status_message: new.status_message,
                error_message: Some(error),
                ..old
            }
            &&& new.status_message@ == "Connection failed"@
            &&& task is Idle
        },
        Message::Disconnect => {
            &&& new == AppState {
                connected: false,
                status_message: new.status_message,
                error_message: None,
                device_info: None,
                ..old
            }
            &&& new.status_message@ == "Disconnected"@
            &&& task is ReleaseDevice
        },
        Message::FireStage(stage) => if old.connected {
            new == old && task == GuiTask::FireStage(stage)
        } else {
            refused_unconnected(old, new, task)
        },
        Message::TurnOff => if old.connected {
            new == old && task is TurnOff
        } else {
            refused_unconnected(old, new, task)
        },
        Message::ArmDevice => if old.connected {
            new == old && task is ArmDevice
        } else {
            refused_unconnected(old, new, task)
        },
        Message::RefreshStatus => if old.connected {
            new == old && task is RefreshStatus
        } else {
            refused_unconnected(old, new, task)
        },
        Message::FireWithCurrent => if !old.connected {
            refused_unconnected(old, new, task)
        } else {
            match parse_unsigned(old.custom_current@, 65535) {
                Some(c) => new == old && task == GuiTask::FireWithCurrent(c as u16),
                None => task is Idle && with_error(old, new, "Invalid current value"@),
            }
        },
        Message::CurrentChanged(value) => new == AppState { custom_current: value, ..old }
            && task is Idle,
        Message::OperationResult(result) => task is Idle && match result {
            Ok(text) => new == AppState {
                status_message: text,
                error_message: None,
                ..old
            },
            Err(e) => with_error(old, new, "Operation failed: "@ + e.text()),
        },
        Message::ClearError => new == AppState { error_message: None, ..old } && task is Idle,
        Message::StageSelected(_) => new == old && task is Idle,
        Message::Tick => new == old && task is Idle,
    }
}

/// Sets the error text.
fn show_error(state: &mut AppState, error: String)
    ensures
        with_error(*old(state), *final(state), error@),
{
    state.error_message = Some(error);
}

/// Processes a message: updates the window and names the device work to
/// start. Device operations need a connected device; a custom current must
/// read as a `u16`.
pub fn update(state: &mut AppState, message: Message) -> (task: GuiTask)
    ensures
        transition(*old(state), *final(state), message, task),
{
    match message {
        Message::Connect => {
            if !state.connecting && !state.connected {
                state.connecting = true;
                state.status_message = copy_text("Connecting...");
                state.error_message = None;
                GuiTask::Connect {
                    port_name: state.port_name.clone(),
                    auto_detect: state.auto_detect,
                    optimize_transitions: state.optimize_transitions,
                    verbose: state.verbose,
                }
            } else {
                GuiTask::Idle
            }
        },
        Message::ConnectionSuccess(device_info) => {
            state.connecting = false;
            state.connected = true;
            state.status_message = copy_text("Connected successfully");
            state.error_message = None;
            state.device_info = Some(device_info);
            GuiTask::Idle
        },
        Message::ConnectionFailed(error) => {
            state.connecting = false;
            state.connected = false;
            state.status_message = copy_text("Connection failed");
            state.error_message = Some(error);
            GuiTask::Idle
        },
        Message::Disconnect => {
            state.connected = false;
            state.status_message = copy_text("Disconnected");
            state.error_message = None;
            state.device_info = None;
            GuiTask::ReleaseDevice
        },
        Message::FireStage(stage) => {
            if state.connected {
                GuiTask::FireStage(stage)
            } else {
                show_error(state, copy_text("Device not connected"));
                GuiTask::Idle
            }
        },
        Message::CurrentChanged(value) => {
            state.custom_current = value;
            GuiTask::Idle
        },
        Message::TurnOff => {
            if state.connected {
                GuiTask::TurnOff
            } else {
                show_error(state, copy_text("Device not connected"));
                GuiTask::Idle
            }
        },
        Message::ArmDevice => {
            if state.connected {
                GuiTask::ArmDevice
            } else {
                show_error(state, copy_text("Device not connected"));
                GuiTask::Idle
            }
        },
        Message::FireWithCurrent => {
            if state.connected {
                match parse_u16_text(state.custom_current.as_str()) {
                    Some(current) => GuiTask::FireWithCurrent(current),
                    None => {
                        show_error(state, copy_text("Invalid current value"));
                        GuiTask::Idle
                    },
                }
            } else {
                show_error(state, copy_text("Device not connected"));
                GuiTask::Idle
            }
        },
        Message::RefreshStatus => {
            if state.connected {
                GuiTask::RefreshStatus
            } else {
                show_error(state, copy_text("Device not connected"));
                GuiTask::Idle
            }
        },
        Message::OperationResult(result) => {
            match result {
                Ok(success_msg) => {
                    state.status_message = success_msg;
                    state.error_message = None;
                },
                Err(error) => {
                    let text = error.to_display_string();
                    show_error(state, join2("Operation failed: ", text.as_str()));
                },
            }
            GuiTask::Idle
        },
        Message::ClearError => {
            state.error_message = None;
            GuiTask::Idle
        },
        _ => GuiTask::Idle,
    }
}

/// The identification line of a device: model, firmware and serial number.
pub open spec fn identification(info: DeviceInfo) -> Seq<char> {
    "Model: "@ + info.model_number@ + " | Firmware: "@ + info.firmware_version@ + " | Serial: "@
        + info.serial_number@
}

/// The identification line of a device.
pub fn identification_line(info: &DeviceInfo) -> (s: String)
    ensures
        s@ == identification(*info),
{
    copy_text("Model: ").concat(info.model_number.as_str()).concat(" | Firmware: ").concat(
        info.firmware_version.as_str(),
    ).concat(" | Serial: ").concat(info.serial_number.as_str())
}

/// The error a device operation answers with when no device is held.
pub open spec fn no_device_error(m: Message) -> bool {
    m matches Message::OperationResult(Err(LumidoxError::DeviceError(t))) && t@
        == "Device not connected"@
}

/// The operation outcome carrying a device error: the error itself.
pub open spec fn failed_with(m: Message, e: LumidoxError) -> bool {
    m matches Message::OperationResult(Err(f)) && f == e
}

/// The outcome of a successful operation, with this text.
pub open spec fn succeeded_with(m: Message, text: Seq<char>) -> bool {
    m matches Message::OperationResult(Ok(t)) && t@ == text
}

/// The message a connection attempt answers with: the device's
/// identification when it gives one, else `Device connected`; on failure the
/// error's text after `Error: `.
pub fn connection_message(outcome: Result<Option<DeviceInfo>, LumidoxError>) -> (m: Message)
    ensures
        match outcome {
            Ok(Some(info)) => m matches Message::ConnectionSuccess(t) && t@ == identification(info),
            Ok(None) => m matches Message::ConnectionSuccess(t) && t@ == "Device connected"@,
            Err(e) => m matches Message::ConnectionFailed(t) && t@ == "Error: "@ + e.text(),
        },
{
    match outcome {
        Ok(Some(info)) => Message::ConnectionSuccess(identification_line(&info)),
        Ok(None) => Message::ConnectionSuccess(copy_text("Device connected")),
        Err(e) => {
            let text = e.to_display_string();
            Message::ConnectionFailed(join2("Error: ", text.as_str()))
        },
    }
}

/// The message a stage firing answers with. `reply` is `None` when no device
/// is held, else the operation's message and, for a stage firing, the
/// current it used; the current is appended as ` (Current: <n>mA)`.
pub fn stage_fire_message(reply: Option<Result<(String, Option<u16>), LumidoxError>>) -> (m: Message)
    ensures
        match reply {
            None => no_device_error(m),
            Some(Err(e)) => failed_with(m, e),
            Some(Ok((text, None))) => succeeded_with(m, text@),
            Some(Ok((text, Some(c)))) => succeeded_with(
                m,
                text@ + " (Current: "@ + decimal(c as nat) + "mA)"@,
            ),
        },
{
    match reply {
        None => Message::OperationResult(
            Err(LumidoxError::DeviceError(copy_text("Device not connected"))),
        ),
        Some(Err(e)) => Message::OperationResult(Err(e)),
        Some(Ok((text, None))) => Message::OperationResult(Ok(text)),
        Some(Ok((text, Some(current)))) => {
            let tail = text_with_number(" (Current: ", current as u64, "mA)");
            let full = text.concat(tail.as_str());
            assert(full@ =~= text@ + " (Current: "@ + decimal(current as nat) + "mA)"@);
            Message::OperationResult(Ok(full))
        },
    }
}

/// The message arming or turning off answers with. `reply` is `None` when no
/// device is held, else the operation's message and the device state it
/// reports, if any, appended as ` (State: <state>)`.
pub fn device_control_message(reply: Option<Result<(String, Option<String>), LumidoxError>>) -> (m: Message)
    ensures
        match reply {
            None => no_device_error(m),
            Some(Err(e)) => failed_with(m, e),
            Some(Ok((text, None))) => succeeded_with(m, text@),
            Some(Ok((text, Some(s)))) => succeeded_with(m, text@ + " (State: "@ + s@ + ")"@),
        },
{
    match reply {
        None => Message::OperationResult(
            Err(LumidoxError::DeviceError(copy_text("Device not connected"))),
        ),
        Some(Err(e)) => Message::OperationResult(Err(e)),
        Some(Ok((text, None))) => Message::OperationResult(Ok(text)),
        Some(Ok((text, Some(s)))) => {
            let full = text.concat(" (State: ").concat(s.as_str()).concat(")");
            Message::OperationResult(Ok(full))
        },
    }
}

/// The message firing with a custom current answers with. `reply` is `None`
/// when no device is held.
pub fn custom_fire_message(current: u16, reply: Option<Result<(), LumidoxError>>) -> (m: Message)
    ensures
        match reply {
            None => no_device_error(m),
            Some(Err(e)) => failed_with(m, e),
            Some(Ok(())) => succeeded_with(
                m,
                "Fired with "@ + decimal(current as nat) + "mA successfully"@,
            ),
        },
{
    match reply {
        None => Message::OperationResult(
            Err(LumidoxError::DeviceError(copy_text("Device not connected"))),
        ),
        Some(Err(e)) => Message::OperationResult(Err(e)),
        Some(Ok(())) => Message::OperationResult(
            Ok(text_with_number("Fired with ", current as u64, "mA successfully")),
        ),
    }
}

/// The message a status refresh answers with. `reply` is `None` when no
/// device is held, else the device's identification if it has one.
pub fn refresh_message(reply: Option<Option<DeviceInfo>>) -> (m: Message)
    ensures
        match reply {
            None => no_device_error(m),
            Some(Some(info)) => succeeded_with(m, identification(info)),
            Some(None) => succeeded_with(m, "Device status refreshed"@),
        },
{
    match reply {
        None => Message::OperationResult(
            Err(LumidoxError::DeviceError(copy_text("Device not connected"))),
        ),
        Some(Some(info)) => Message::OperationResult(Ok(identification_line(&info))),
        Some(None) => Message::OperationResult(Ok(copy_text("Device status refreshed"))),
    }
}

/// A button of the window: its label and the message it sends, if enabled.
#[derive(Debug)]
pub struct GuiButton {
    /// The label.
    pub label: String,
    /// The message a press sends; `None` while the button is disabled.
    pub on_press: Option<Message>,
}

/// What the window shows for a state.
#[derive(Debug)]
pub struct GuiView {
    /// The window title.
    pub title: String,
    /// The device identification line.
    pub device_line: String,
    /// Connect, disconnect, or the connection under way.
    pub connection_button: GuiButton,
    /// The status line.
    pub status_line: String,
    /// One button per stage, in order.
    pub stage_buttons: Vec<GuiButton>,
    /// The custom current field's text.
    pub current_input: String,
    /// The placeholder of the custom current field.
    pub current_placeholder: String,
    /// Fires with the custom current.
    pub fire_button: GuiButton,
    /// Arm, turn off and refresh, in that order.
    pub device_buttons: Vec<GuiButton>,
    /// The error shown with a `Clear` button, if any.
    pub error_line: Option<String>,
    /// The button that dismisses the error, shown with it.
    pub clear_button: Option<GuiButton>,
}

/// Whether a button has this label and sends this message when enabled.
pub open spec fn button_is(b: GuiButton, label: Seq<char>, msg: Message, enabled: bool) -> bool {
    &&& b.label@ == label
    &&& b.on_press == if enabled {
        Some(msg)
    } else {
        None
    }
}

/// The button that sends `msg` while a device is connected.
fn device_button(label: &str, msg: Message, connected: bool) -> (b: GuiButton)
    ensures
        button_is(b, label@, msg, connected),
{
    GuiButton { label: copy_text(label), on_press: if connected { Some(msg) } else { None } }
}

/// What the window shows: the device line, the connection button (disconnect
/// while connected, a disabled `Connecting...` while a connection is under
/// way, else connect), the status, five stage buttons, the custom current
/// control, arm, turn off and refresh, and the error with its `Clear` button,
/// if there is an error. Device buttons
/// are enabled only while a device is connected.
pub fn view(state: &AppState) -> (v: GuiView)
    ensures
        v.title@ == "Lumidox II Controller"@,
        v.device_line@ == match state.device_info {
            Some(i) => i@,
            None => "No device connected"@,
        },
        state.connected ==> button_is(v.connection_button, "Disconnect"@, Message::Disconnect, true),
        !state.connected && state.connecting ==> v.connection_button.label@ == "Connecting..."@
            && v.connection_button.on_press is None,
        !state.connected && !state.connecting ==> button_is(
            v.connection_button,
            "Connect"@,
            Message::Connect,
            true,
        ),
        v.status_line@ == state.status_message@,
        v.stage_buttons@.len() == 5,
        forall|i: int|
            0 <= i < 5 ==> button_is(
                #[trigger] v.stage_buttons@[i],
                "Stage "@ + decimal((i + 1) as nat),
                Message::FireStage((i + 1) as u8),
                state.connected,
            ),
        v.current_input@ == state.custom_current@,
        v.current_placeholder@ == "500"@,
        button_is(v.fire_button, "Fire with Current"@, Message::FireWithCurrent, state.connected),
        v.device_buttons@.len() == 3,
        button_is(v.device_buttons@[0], "ARM"@, Message::ArmDevice, state.connected),
        button_is(v.device_buttons@[1], "Turn Off"@, Message::TurnOff, state.connected),
        button_is(v.device_buttons@[2], "Refresh"@, Message::RefreshStatus, state.connected),
        v.error_line == state.error_message,
        v.clear_button is Some <==> state.error_message is Some,
        v.clear_button matches Some(b) ==> button_is(b, "Clear"@, Message::ClearError, true),
{
    let device_line = match &state.device_info {
        Some(info) => info.clone(),
        None => copy_text("No device connected"),
    };
    let connection_button = if state.connected {
        GuiButton { label: copy_text("Disconnect"), on_press: Some(Message::Disconnect) }
    } else if state.connecting {
        GuiButton { label: copy_text("Connecting..."), on_press: None }
    } else {
        GuiButton { label: copy_text("Connect"), on_press: Some(Message::Connect) }
    };
    let mut stage_buttons: Vec<GuiButton> = Vec::new();
    let mut stage: u8 = 1;
    while stage <= 5
        invariant
            1 <= stage <= 6,
            stage_buttons@.len() == stage - 1,
            forall|i: int|
                0 <= i < stage - 1 ==> button_is(
                    #[trigger] stage_buttons@[i],
                    "Stage "@ + decimal((i + 1) as nat),
                    Message::FireStage((i + 1) as u8),
                    state.connected,
                ),
        decreases 6 - stage,
    {
        let label = text_then_number("Stage ", stage as u64);
        let on_press = if state.connected {
            Some(Message::FireStage(stage))
        } else {
            None
        };
        stage_buttons.push(GuiButton { label, on_press });
        stage = stage + 1;
    }
    let mut device_buttons: Vec<GuiButton> = Vec::new();
    device_buttons.push(device_button("ARM", Message::ArmDevice, state.connected));
    device_buttons.push(device_button("Turn Off", Message::TurnOff, state.connected));
    device_buttons.push(device_button("Refresh", Message::RefreshStatus, state.connected));
    let (error_line, clear_button) = match &state.error_message {
        Some(e) => (
            Some(e.clone()),
            Some(GuiButton { label: copy_text("Clear"), on_press: Some(Message::ClearError) }),
        ),
        None => (None, None),
    };
    GuiView {
        title: copy_text("Lumidox II Controller"),
        device_line,
        connection_button,
        status_line: state.status_message.clone(),
        stage_buttons,
        current_input: state.custom_current.clone(),
        current_placeholder: copy_text("500"),
        fire_button: device_button("Fire with Current", Message::FireWithCurrent, state.connected),
        device_buttons,
        error_line,
        clear_button,
    }
}

} // verus!
