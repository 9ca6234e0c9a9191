use lumidox_gui::error::{DeviceInfo, LumidoxError};
use lumidox_gui::fallback;
use lumidox_gui::gui::{
    connection_message, custom_fire_message, device_control_message, identification_line,
    refresh_message, stage_fire_message, update, view, AppState, GuiTask, Message,
};
use lumidox_gui::launch::GuiLaunch;
use lumidox_gui::launch::{
    check_gui_compatibility, cleanup_gui, get_gui_system_info, initialize_gui, run_gui_default,
    run_gui_verbose, run_gui_with_port, test_gui, GuiError,
};

fn info() -> DeviceInfo {
    DeviceInfo {
        firmware_version: "1.4".to_string(),
        model_number: "LII-5".to_string(),
        serial_number: "SN42".to_string(),
    }
}

fn connected_state() -> AppState {
    let mut s = AppState::default();
    update(&mut s, Message::ConnectionSuccess("dev".to_string()));
    s
}

fn error_text(s: &AppState) -> Option<String> {
    s.error_message.clone()
}

#[test]
fn default_state_is_ready_to_connect() {
    let s = AppState::default();
    assert_eq!(s.status_message, "Ready to connect");
    assert_eq!(s.custom_current, "500");
    assert_eq!(s.selected_stage, 1);
    assert!(s.auto_detect);
    assert!(!s.verbose);
    assert!(s.optimize_transitions);
    assert!(!s.connected);
    assert!(!s.connecting);
    assert!(s.error_message.is_none());
    assert!(s.device_info.is_none());
    assert!(s.port_name.is_none());
}

#[test]
fn connect_starts_connection_with_configuration() {
    let mut s = AppState::default();
    s.port_name = Some("COM3".to_string());
    s.error_message = Some("old".to_string());
    let task = update(&mut s, Message::Connect);
    match task {
        GuiTask::Connect { port_name, auto_detect, optimize_transitions, verbose } => {
            assert_eq!(port_name, Some("COM3".to_string()));
            assert!(auto_detect);
            assert!(optimize_transitions);
            assert!(!verbose);
        }
        other => panic!("unexpected task {:?}", other),
    }
    assert!(s.connecting);
    assert_eq!(s.status_message, "Connecting...");
    assert!(s.error_message.is_none());
}

#[test]
fn connect_is_ignored_while_connecting_or_connected() {
    let mut s = AppState::default();
    update(&mut s, Message::Connect);
    let again = update(&mut s, Message::Connect);
    assert!(matches!(again, GuiTask::Idle));
    assert_eq!(s.status_message, "Connecting...");
    let mut c = connected_state();
    let task = update(&mut c, Message::Connect);
    assert!(matches!(task, GuiTask::Idle));
    assert_eq!(c.status_message, "Connected successfully");
}

#[test]
fn connection_success_and_failure_are_recorded() {
    let mut s = AppState::default();
    update(&mut s, Message::Connect);
    update(&mut s, Message::ConnectionSuccess("Model: X".to_string()));
    assert!(s.connected);
    assert!(!s.connecting);
    assert_eq!(s.status_message, "Connected successfully");
    assert_eq!(s.device_info, Some("Model: X".to_string()));

    let mut f = AppState::default();
    update(&mut f, Message::Connect);
    update(&mut f, Message::ConnectionFailed("Error: no port".to_string()));
    assert!(!f.connected);
    assert!(!f.connecting);
    assert_eq!(f.status_message, "Connection failed");
    assert_eq!(error_text(&f), Some("Error: no port".to_string()));
}

#[test]
fn disconnect_releases_device() {
    let mut s = connected_state();
    s.error_message = Some("x".to_string());
    let task = update(&mut s, Message::Disconnect);
    assert!(matches!(task, GuiTask::ReleaseDevice));
    assert!(!s.connected);
    assert_eq!(s.status_message, "Disconnected");
    assert!(s.error_message.is_none());
    assert!(s.device_info.is_none());
}

#[test]
fn device_operations_need_a_connection() {
    for msg in [Message::FireStage(3), Message::TurnOff, Message::ArmDevice, Message::RefreshStatus, Message::FireWithCurrent] {
        let mut s = AppState::default();
        let task = update(&mut s, msg);
        assert!(matches!(task, GuiTask::Idle));
        assert_eq!(error_text(&s), Some("Device not connected".to_string()));
        assert_eq!(s.status_message, "Ready to connect");
    }
}

#[test]
fn device_operations_start_when_connected() {
    let mut s = connected_state();
    assert!(matches!(update(&mut s, Message::FireStage(3)), GuiTask::FireStage(3)));
    assert!(matches!(update(&mut s, Message::TurnOff), GuiTask::TurnOff));
    assert!(matches!(update(&mut s, Message::ArmDevice), GuiTask::ArmDevice));
    assert!(matches!(update(&mut s, Message::RefreshStatus), GuiTask::RefreshStatus));
    assert!(s.error_message.is_none());
}

#[test]
fn fire_with_current_reads_the_field() {
    let mut s = connected_state();
    assert!(matches!(update(&mut s, Message::FireWithCurrent), GuiTask::FireWithCurrent(500)));
    update(&mut s, Message::CurrentChanged("+750".to_string()));
    assert_eq!(s.custom_current, "+750");
    assert!(matches!(update(&mut s, Message::FireWithCurrent), GuiTask::FireWithCurrent(750)));
    update(&mut s, Message::CurrentChanged("65535".to_string()));
    assert!(matches!(update(&mut s, Message::FireWithCurrent), GuiTask::FireWithCurrent(65535)));
    for bad in ["abc", "", "65536", "-5", "+", "12 "] {
        let mut t = connected_state();
        update(&mut t, Message::CurrentChanged(bad.to_string()));
        let task = update(&mut t, Message::FireWithCurrent);
        assert!(matches!(task, GuiTask::Idle), "{}", bad);
        assert_eq!(error_text(&t), Some("Invalid current value".to_string()), "{}", bad);
    }
}

#[test]
fn operation_results_are_shown() {
    let mut s = connected_state();
    update(&mut s, Message::OperationResult(Err(LumidoxError::DeviceError("boom".to_string()))));
    assert_eq!(error_text(&s), Some("Operation failed: Device error: boom".to_string()));
    assert_eq!(s.status_message, "Connected successfully");
    update(&mut s, Message::OperationResult(Ok("Stage 1 fired".to_string())));
    assert_eq!(s.status_message, "Stage 1 fired");
    assert!(s.error_message.is_none());
}

#[test]
fn clear_error_and_ignored_messages() {
    let mut s = AppState::default();
    update(&mut s, Message::FireStage(1));
    assert!(s.error_message.is_some());
    update(&mut s, Message::ClearError);
    assert!(s.error_message.is_none());
    assert!(matches!(update(&mut s, Message::StageSelected(4)), GuiTask::Idle));
    assert_eq!(s.selected_stage, 1);
    assert!(matches!(update(&mut s, Message::Tick), GuiTask::Idle));
}

#[test]
fn identification_and_connection_messages() {
    assert_eq!(identification_line(&info()), "Model: LII-5 | Firmware: 1.4 | Serial: SN42");
    match connection_message(Ok(Some(info()))) {
        Message::ConnectionSuccess(t) => assert_eq!(t, "Model: LII-5 | Firmware: 1.4 | Serial: SN42"),
        m => panic!("{:?}", m),
    }
    match connection_message(Ok(None)) {
        Message::ConnectionSuccess(t) => assert_eq!(t, "Device connected"),
        m => panic!("{:?}", m),
    }
    match connection_message(Err(LumidoxError::CommunicationError("no reply".to_string()))) {
        Message::ConnectionFailed(t) => assert_eq!(t, "Error: Communication error: no reply"),
        m => panic!("{:?}", m),
    }
}

fn ok_text(m: Message) -> String {
    match m {
        Message::OperationResult(Ok(t)) => t,
        other => panic!("{:?}", other),
    }
}

fn no_device(m: Message) -> bool {
    matches!(m, Message::OperationResult(Err(LumidoxError::DeviceError(ref t))) if t == "Device not connected")
}

#[test]
fn operation_outcome_messages() {
    assert_eq!(ok_text(stage_fire_message(Some(Ok(("Stage 2 fired".to_string(), Some(405)))))), "Stage 2 fired (Current: 405mA)");
    assert_eq!(ok_text(stage_fire_message(Some(Ok(("Stage 2 fired".to_string(), None))))), "Stage 2 fired");
    assert!(no_device(stage_fire_message(None)));
    assert!(matches!(stage_fire_message(Some(Err(LumidoxError::DeviceBusy("b".to_string())))), Message::OperationResult(Err(LumidoxError::DeviceBusy(_)))));
    assert_eq!(ok_text(device_control_message(Some(Ok(("Device armed".to_string(), Some("Armed".to_string())))))), "Device armed (State: Armed)");
    assert_eq!(ok_text(device_control_message(Some(Ok(("Device off".to_string(), None))))), "Device off");
    assert!(no_device(device_control_message(None)));
    assert_eq!(ok_text(custom_fire_message(750, Some(Ok(())))), "Fired with 750mA successfully");
    assert!(no_device(custom_fire_message(750, None)));
    assert_eq!(ok_text(refresh_message(Some(None))), "Device status refreshed");
    assert_eq!(ok_text(refresh_message(Some(Some(info())))), "Model: LII-5 | Firmware: 1.4 | Serial: SN42");
    assert!(no_device(refresh_message(None)));
}

#[test]
fn view_of_disconnected_window() {
    let s = AppState::default();
    let v = view(&s);
    assert_eq!(v.title, "Lumidox II Controller");
    assert_eq!(v.device_line, "No device connected");
    assert_eq!(v.connection_button.label, "Connect");
    assert!(matches!(v.connection_button.on_press, Some(Message::Connect)));
    assert_eq!(v.status_line, "Ready to connect");
    assert_eq!(v.stage_buttons.len(), 5);
    for (i, b) in v.stage_buttons.iter().enumerate() {
        assert_eq!(b.label, format!("Stage {}", i + 1));
        assert!(b.on_press.is_none());
    }
    assert_eq!(v.current_input, "500");
    assert_eq!(v.current_placeholder, "500");
    assert!(v.fire_button.on_press.is_none());
    let labels: Vec<&str> = v.device_buttons.iter().map(|b| b.label.as_str()).collect();
    assert_eq!(labels, vec!["ARM", "Turn Off", "Refresh"]);
    assert!(v.device_buttons.iter().all(|b| b.on_press.is_none()));
    assert!(v.error_line.is_none());
    assert!(v.clear_button.is_none());
}

#[test]
fn view_of_connecting_and_connected_window() {
    let mut s = AppState::default();
    update(&mut s, Message::Connect);
    let v = view(&s);
    assert_eq!(v.connection_button.label, "Connecting...");
    assert!(v.connection_button.on_press.is_none());

    let mut c = connected_state();
    update(&mut c, Message::OperationResult(Err(LumidoxError::DeviceError("x".to_string()))));
    let v = view(&c);
    assert_eq!(v.device_line, "dev");
    assert_eq!(v.connection_button.label, "Disconnect");
    assert!(matches!(v.connection_button.on_press, Some(Message::Disconnect)));
    assert!(matches!(v.stage_buttons[2].on_press, Some(Message::FireStage(3))));
    assert!(matches!(v.fire_button.on_press, Some(Message::FireWithCurrent)));
    assert!(matches!(v.device_buttons[0].on_press, Some(Message::ArmDevice)));
    assert!(matches!(v.device_buttons[1].on_press, Some(Message::TurnOff)));
    assert!(matches!(v.device_buttons[2].on_press, Some(Message::RefreshStatus)));
    assert_eq!(v.error_line, Some("Operation failed: Device error: x".to_string()));
    let clear = v.clear_button.unwrap();
    assert_eq!(clear.label, "Clear");
    assert!(matches!(clear.on_press, Some(Message::ClearError)));
}

#[test]
fn launches() {
    let d = run_gui_default();
    assert!(d.port_name.is_none() && d.auto_detect && !d.verbose && d.optimize_transitions);
    let (state, first) = d.start();
    assert!(matches!(first, Some(Message::Connect)));
    assert_eq!(state.status_message, "Ready to connect");

    let p = run_gui_with_port("COM3".to_string());
    assert_eq!(p.port_name, Some("COM3".to_string()));
    assert!(!p.auto_detect && !p.verbose && p.optimize_transitions);
    let (state, first) = p.start();
    assert!(first.is_none());
    assert_eq!(state.port_name, Some("COM3".to_string()));
    assert!(!state.auto_detect);

    let v = run_gui_verbose(None, true);
    assert!(v.verbose && v.auto_detect && v.optimize_transitions && v.port_name.is_none());
}

#[test]
fn detecting_launch_connects_at_once() {
    let (mut state, first) = run_gui_default().start();
    let task = update(&mut state, first.unwrap());
    match task {
        GuiTask::Connect { port_name, auto_detect, optimize_transitions, verbose } => {
            assert!(port_name.is_none() && auto_detect && optimize_transitions && !verbose);
        }
        other => panic!("{:?}", other),
    }
    assert!(state.connecting);
}

#[test]
fn display_check() {
    let refused = check_gui_compatibility(false, false, true);
    match refused {
        Err(LumidoxError::SystemError(m)) => assert_eq!(m, "No display server detected. GUI requires X11 or Wayland."),
        other => panic!("{:?}", other),
    }
    assert!(check_gui_compatibility(true, false, true).is_ok());
    assert!(check_gui_compatibility(false, true, true).is_ok());
    assert!(check_gui_compatibility(false, false, false).is_ok());
    assert!(initialize_gui(false, false, true).is_err());
    assert!(initialize_gui(true, true, true).is_ok());
    assert!(test_gui(false, false, true).is_err());
    assert!(test_gui(false, false, false).is_ok());
    assert!(cleanup_gui().is_ok());
}

#[test]
fn system_info() {
    let i = get_gui_system_info("0.1.0", "linux", "x86_64");
    assert_eq!(i.backend, "Iced");
    assert_eq!(i.version, "0.1.0");
    assert_eq!(i.renderer, "wgpu");
    assert_eq!(i.platform, "linux");
    assert_eq!(i.architecture, "x86_64");
    assert!(i.supports_transparency && i.supports_decorations && i.supports_resizing);
}

#[test]
fn gui_error_texts() {
    assert_eq!(GuiError::IcedError("a".to_string()).to_display_string(), "Iced framework error: a");
    assert_eq!(GuiError::GraphicsError("b".to_string()).to_display_string(), "Graphics system error: b");
    assert_eq!(GuiError::WindowError("c".to_string()).to_display_string(), "Window system error: c");
    assert_eq!(GuiError::ConfigError("d".to_string()).to_display_string(), "Configuration error: d");
    assert_eq!(GuiError::CompatibilityError("e".to_string()).to_display_string(), "Compatibility error: e");
}

#[test]
fn window_unavailable_without_toolkit() {
    match fallback::run_gui(None, true, false, true) {
        Err(LumidoxError::ConfigError(m)) => assert_eq!(m, "GUI mode is not available. GUI dependencies not installed or feature not enabled."),
        other => panic!("{:?}", other),
    }
}

#[test]
fn launch_equivalences() {
    let same = |a: GuiLaunch, b: GuiLaunch| {
        a.port_name == b.port_name && a.auto_detect == b.auto_detect && a.verbose == b.verbose && a.optimize_transitions == b.optimize_transitions
    };
    assert!(same(run_gui_default(), GuiLaunch::new(None, true, false, true)));
    assert!(same(run_gui_with_port("COM7".to_string()), GuiLaunch::new(Some("COM7".to_string()), false, false, true)));
    assert!(same(run_gui_verbose(Some("X".to_string()), false), GuiLaunch::new(Some("X".to_string()), false, true, true)));
}
