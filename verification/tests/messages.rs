use lumidox_gui::app_state::{AppView, NotificationType};
use lumidox_gui::application::LumidoxApplication;
use lumidox_gui::device_handlers::{ConnectedDevice, DeviceHandlers};
use lumidox_gui::device_messages::{DeviceMessage, DeviceOperationResult, SafetyLevel};
use lumidox_gui::device_state::ConnectionState;
use lumidox_gui::error::{DeviceInfo, DeviceMode, LumidoxError};
use lumidox_gui::factory::{ButtonStyle, ComponentFactory, TextStyle};
use lumidox_gui::handlers::{HandlerCommand, HandlerCoordinator};
use lumidox_gui::messages::{Message, MessageFactory, MessageRoute, MessageRouter};
use lumidox_gui::ui_handlers::UiHandlers;
use lumidox_gui::ui_messages::{MessageCategory, MessagePriority, UiMessage, UiMessageUtils};
use lumidox_gui::unified_state::UnifiedState;

fn connected() -> UnifiedState {
    let mut s = UnifiedState::new();
    s.set_connection_state(ConnectionState::Connected);
    s
}

fn err_text(r: Result<(), LumidoxError>) -> String {
    r.unwrap_err().to_display_string()
}

#[test]
fn device_message_descriptions() {
    assert_eq!(DeviceMessage::FireStage { stage: 3 }.get_description(), "Fire Stage 3");
    assert_eq!(DeviceMessage::FireCustom { current: 750 }.get_description(), "Fire with 750mA");
    assert_eq!(DeviceMessage::SetArmCurrent { current: 100 }.get_description(), "Set ARM Current to 100mA");
    assert_eq!(DeviceMessage::ReadStageParameters { stage: 2 }.get_description(), "Read Stage 2 Parameters");
    let c = DeviceMessage::Connect { port_name: Some("COM3".into()), auto_detect: false, verbose: false, optimize_transitions: true };
    assert_eq!(c.get_description(), "Connect to COM3");
    let a = DeviceMessage::Connect { port_name: Some("COM3".into()), auto_detect: true, verbose: false, optimize_transitions: true };
    assert_eq!(a.get_description(), "Connect (Auto-detect)");
    let n = DeviceMessage::Connect { port_name: None, auto_detect: false, verbose: false, optimize_transitions: true };
    assert_eq!(n.get_description(), "Connect");
}

#[test]
fn device_message_validation() {
    assert!(DeviceMessage::FireStage { stage: 1 }.validate().is_ok());
    assert!(DeviceMessage::FireStage { stage: 5 }.validate().is_ok());
    assert_eq!(err_text(DeviceMessage::FireStage { stage: 10 }.validate()), "Invalid input: Invalid stage number: 10. Must be 1-5.");
    assert_eq!(err_text(DeviceMessage::FireStage { stage: 0 }.validate()), "Invalid input: Invalid stage number: 0. Must be 1-5.");
    assert_eq!(err_text(DeviceMessage::FireCustom { current: 0 }.validate()), "Invalid input: Fire current must be greater than 0");
    assert_eq!(err_text(DeviceMessage::FireCustom { current: 5001 }.validate()), "Invalid input: Fire current must not exceed 5000mA");
    assert!(DeviceMessage::FireCustom { current: 5000 }.validate().is_ok());
    assert_eq!(err_text(DeviceMessage::SetArmCurrent { current: 0 }.validate()), "Invalid input: ARM current must be greater than 0");
    assert_eq!(err_text(DeviceMessage::SetArmCurrent { current: 6000 }.validate()), "Invalid input: ARM current must not exceed 5000mA");
    assert_eq!(err_text(DeviceMessage::ReadStageParameters { stage: 6 }.validate()), "Invalid input: Invalid stage number: 6. Must be 1-5.");
    assert!(DeviceMessage::ArmDevice.validate().is_ok());
}

#[test]
fn device_message_classification() {
    assert!(DeviceMessage::FireStage { stage: 1 }.is_destructive());
    assert!(DeviceMessage::ShutdownDevice.is_destructive());
    assert!(!DeviceMessage::ReadArmCurrent.is_destructive());
    assert!(!DeviceMessage::Disconnect.requires_connection());
    assert!(DeviceMessage::ArmDevice.requires_connection());
    assert_eq!(DeviceMessage::FireCustom { current: 1 }.get_safety_level(), SafetyLevel::High);
    assert_eq!(DeviceMessage::TurnOffDevice.get_safety_level(), SafetyLevel::Medium);
    assert_eq!(DeviceMessage::Disconnect.get_safety_level(), SafetyLevel::Low);
    assert_eq!(DeviceMessage::ReadRemoteMode.get_safety_level(), SafetyLevel::Negligible);
}

#[test]
fn operation_results() {
    let ok = DeviceOperationResult::FiringResult { success: true, operation: "Fire Stage 1".into(), error: None };
    assert!(ok.is_success());
    assert_eq!(ok.get_success_message(), Some("Fire Stage 1 completed successfully".to_string()));
    let bad = DeviceOperationResult::FiringResult { success: false, operation: "Fire Stage 1".into(), error: Some("boom".into()) };
    assert!(!bad.is_success());
    assert_eq!(bad.get_error(), Some("boom"));
    assert!(bad.get_success_message().is_none());
    let conn = DeviceOperationResult::ConnectionResult { success: true, port_name: None, device_info: None, error: None };
    assert_eq!(conn.get_success_message(), Some("Connected to device on auto-detected port".to_string()));
    let p = DeviceOperationResult::ParameterResult { success: true, parameter_name: "ARM Current".into(), value: Some("100mA".into()), error: None };
    assert_eq!(p.get_success_message(), Some("ARM Current set to 100mA".to_string()));
    let s = DeviceOperationResult::StatusResult { success: true, device_mode: None, arm_current: None, fire_current: None, error: None };
    assert!(s.get_success_message().is_none());
}

#[test]
fn ui_message_properties() {
    let m = UiMessage::InputUpdated { field_name: "arm_current".into(), value: "1".into() };
    assert!(m.affects_validation());
    assert_eq!(m.get_priority(), MessagePriority::Normal);
    assert_eq!(m.get_category(), MessageCategory::Input);
    assert_eq!(m.get_description(), "Input updated: arm_current");
    assert!(UiMessage::ErrorDismissed.requires_immediate_update());
    assert_eq!(UiMessage::ErrorDismissed.get_priority(), MessagePriority::High);
    let n = UiMessage::ShowNotification { message: "m".into(), notification_type: NotificationType::Error, auto_dismiss: None };
    assert_eq!(n.get_priority(), MessagePriority::High);
    assert_eq!(n.get_description(), "Show Error notification: m");
    assert_eq!(UiMessage::WindowResized { width: 800, height: 600 }.get_description(), "Window resized to 800x600");
    assert_eq!(UiMessage::Tick.get_priority(), MessagePriority::Low);
    assert!(MessagePriority::Low < MessagePriority::High);
    assert_eq!(UiMessage::InputFocusChanged { field_name: "f".into(), focused: true }.get_description(), "Input focus gained: f");
    assert_eq!(UiMessageUtils::view_changed(AppView::Help).get_description(), "View changed to Help");
    assert!(matches!(UiMessageUtils::input_updated("a", "b"), UiMessage::InputUpdated { .. }));
}

#[test]
fn message_properties_and_routing() {
    let fire = MessageFactory::fire_stage(2);
    assert!(fire.requires_async_processing());
    assert!(fire.is_destructive());
    assert_eq!(fire.get_priority(), MessagePriority::High);
    assert_eq!(fire.get_category(), MessageCategory::System);
    assert_eq!(fire.get_description(), "Device: Fire Stage 2");
    let idle = UnifiedState::new();
    assert_eq!(MessageRouter::route_message(&fire, &idle), MessageRoute::ConnectionHandler);
    assert_eq!(MessageRouter::route_message(&fire, &connected()), MessageRoute::DeviceHandler);
    assert!(MessageRouter::should_queue_message(&fire, &idle));
    assert!(!MessageRouter::should_queue_message(&fire, &connected()));
    let mut busy = connected();
    busy.set_busy(true, Some("x".into()));
    assert!(MessageRouter::should_queue_message(&fire, &busy));
    assert_eq!(MessageRouter::get_processing_timeout(&fire), Some(10));
    assert_eq!(MessageRouter::get_processing_timeout(&MessageFactory::disconnect_device()), Some(15));
    assert_eq!(MessageRouter::get_processing_timeout(&Message::Tick), None);
    assert_eq!(MessageRouter::route_message(&Message::Tick, &idle), MessageRoute::SystemHandler);
}

#[test]
fn message_validation_against_state() {
    let idle = UnifiedState::new();
    assert_eq!(err_text(MessageFactory::fire_stage(1).validate(&idle)), "Device not connected: Device operation requires active connection");
    assert!(MessageFactory::fire_stage(1).validate(&connected()).is_ok());
    let mut busy = connected();
    busy.set_busy(true, Some("x".into()));
    assert_eq!(err_text(MessageFactory::fire_stage(1).validate(&busy)), "Device busy: Cannot perform destructive operation while device is busy");
    assert_eq!(err_text(MessageFactory::fire_stage(9).validate(&connected())), "Invalid input: Invalid stage number: 9. Must be 1-5.");
    assert_eq!(err_text(MessageFactory::update_input("".into(), "1".into()).validate(&idle)), "Invalid input: Field name cannot be empty");
    assert!(MessageFactory::change_view(AppView::Main).validate(&idle).is_ok());
}

#[test]
fn device_handler_results() {
    assert_eq!(DeviceHandlers::connection_port(None, false).unwrap_err().to_display_string(), "Invalid input: Port name required when auto-detection is disabled");
    assert_eq!(DeviceHandlers::connection_port(None, true).unwrap(), None);
    let r = DeviceHandlers::handle_connect(Ok(ConnectedDevice { port_name: "COM3".into(), device_info: None }));
    assert_eq!(r.get_success_message(), Some("Connected to device on COM3".to_string()));
    let f = DeviceHandlers::handle_fire_stage(2, Some(Ok(Some(405))));
    assert_eq!(f.get_success_message(), Some("Fire Stage 2 (405mA) completed successfully".to_string()));
    let nd = DeviceHandlers::handle_fire_stage(2, None);
    assert_eq!(nd.get_error(), Some("Device not connected"));
    let e = DeviceHandlers::handle_fire_custom(300, Some(Err(LumidoxError::DeviceError("fault".into()))));
    assert_eq!(e.get_error(), Some("Device error: fault"));
    let a = DeviceHandlers::handle_set_arm_current(250, Some(Ok(())));
    assert_eq!(a.get_success_message(), Some("ARM Current set to 250mA".to_string()));
    let st = DeviceHandlers::handle_read_device_status(Some((Some(1), None, Some(DeviceMode::Remote))));
    assert!(st.is_success());
    let power = DeviceHandlers::handle_refresh_power_values(Some(vec![Ok("1 W (2 mW)".to_string()), Err(LumidoxError::DeviceError("x".into())), Ok("3 W (4 mW)".to_string())]));
    assert!(!power.is_success());
    assert_eq!(power.get_error(), Some("Failed to read some stages: Stage 2: Device error: x"));
    let power = DeviceHandlers::handle_refresh_power_values(Some(vec![Ok("1 W".to_string()), Ok("2 W".to_string())]));
    assert_eq!(power.get_success_message(), Some("Power values updated: Stage 1: 1 W, Stage 2: 2 W".to_string()));
    let power = DeviceHandlers::handle_refresh_power_values(None);
    assert_eq!(power.get_error(), Some("Device not connected"));
}

#[test]
fn coordinator_runs_an_operation() {
    let mut s = connected();
    let cmd = HandlerCoordinator::update(&mut s, MessageFactory::set_arm_current(250));
    assert!(matches!(cmd, HandlerCommand::SetArmCurrent { current: 250 }));
    assert!(s.is_busy());
    let result = DeviceHandlers::handle_set_arm_current(250, Some(Ok(())));
    let cmd = HandlerCoordinator::update(&mut s, Message::DeviceOperationCompleted(result));
    assert!(matches!(cmd, HandlerCommand::Nothing));
    assert!(!s.is_busy());
    assert_eq!(s.device_state.get_arm_current(), Some(250));
    assert_eq!(s.app_state.last_operation_success, Some(true));
    assert_eq!(s.app_state.notifications.message, Some("ARM Current set to 250mA".to_string()));
}

#[test]
fn coordinator_refuses_invalid_messages() {
    let mut s = UnifiedState::new();
    let cmd = HandlerCoordinator::update(&mut s, MessageFactory::fire_stage(1));
    assert!(matches!(cmd, HandlerCommand::Nothing));
    assert!(!s.is_busy());
    assert_eq!(
        s.app_state.notifications.message,
        Some("Message validation failed: Device not connected: Device operation requires active connection".to_string())
    );
}

#[test]
fn coordinator_device_commands() {
    let mut s = connected();
    let cmd = HandlerCoordinator::update(&mut s, Message::Device(DeviceMessage::Disconnect));
    match cmd {
        HandlerCommand::Deliver(r) => assert_eq!(r.get_success_message(), Some("Device disconnected successfully".to_string())),
        other => panic!("{:?}", other),
    }
    assert!(!s.is_device_connected());
    let mut c = connected();
    let cmd = HandlerCoordinator::update(&mut c, Message::Device(DeviceMessage::ReadArmCurrent));
    match cmd {
        HandlerCommand::Deliver(r) => assert_eq!(r.get_success_message(), Some("ARM Current set to 1000mA".to_string())),
        other => panic!("{:?}", other),
    }
    let mut d = UnifiedState::new();
    let cmd = HandlerCoordinator::update(&mut d, MessageFactory::connect_device(None, true, false, true));
    assert!(matches!(cmd, HandlerCommand::Connect { auto_detect: true, .. }));
    assert_eq!(d.device_state.connection_state, ConnectionState::Connecting);
}

#[test]
fn coordinator_records_failures_and_ticks() {
    let mut s = connected();
    HandlerCoordinator::update(&mut s, MessageFactory::fire_stage(1));
    let failed = DeviceHandlers::handle_fire_stage(1, Some(Err(LumidoxError::CommunicationError("timeout".into()))));
    HandlerCoordinator::update(&mut s, Message::DeviceOperationCompleted(failed));
    assert_eq!(s.app_state.last_operation_success, Some(false));
    assert_eq!(s.app_state.notifications.message, Some("Operation failed: Communication error: timeout".to_string()));
    assert_eq!(s.app_state.notifications.auto_dismiss_timer, Some(5));
    HandlerCoordinator::update(&mut s, Message::Tick);
    assert_eq!(s.app_state.notifications.auto_dismiss_timer, Some(4));
}

#[test]
fn ui_handlers_update_state() {
    let mut s = UnifiedState::new();
    UiHandlers::handle_view_changed(&mut s, AppView::Settings);
    assert_eq!(s.app_state.current_view, AppView::Settings);
    UiHandlers::handle_input_updated(&mut s, "arm_current".into(), "42".into());
    assert_eq!(s.get_arm_current_input(), "42");
    UiHandlers::handle_layout_mode_changed(&mut s, true);
    assert!(s.app_state.settings.compact_layout);
    let cmd = HandlerCoordinator::update(&mut s, Message::Ui(UiMessage::ToggleVerbose));
    assert!(matches!(cmd, HandlerCommand::Nothing));
    assert!(s.device_state.verbose);
    assert_eq!(s.app_state.notifications.message, Some("Verbose mode enabled".to_string()));
    UiHandlers::handle_clear_all_inputs(&mut s);
    assert_eq!(s.get_arm_current_input(), "");
}

#[test]
fn factory_panels_follow_the_state() {
    let idle = UnifiedState::with_device_config(Some("COM9".into()), false, true, true);
    let stages = ComponentFactory::create_stage_controls(&idle);
    assert_eq!(stages.buttons.len(), 5);
    assert_eq!(stages.buttons[4].label, "Stage 5");
    assert!(matches!(stages.buttons[4].on_press, Message::Device(DeviceMessage::FireStage { stage: 5 })));
    assert_eq!(stages.custom_hint, "Enter current value and use ARM current controls below");
    let dev = ComponentFactory::create_device_controls(&idle);
    assert_eq!(dev.connection_row.len(), 1);
    assert_eq!(dev.connection_row[0].label, "Connect");
    assert_eq!(dev.connection_row[0].style, ButtonStyle::Primary);
    match &dev.connection_row[0].on_press {
        Message::Device(DeviceMessage::Connect { port_name, auto_detect, verbose, optimize_transitions }) => {
            assert_eq!(port_name.as_deref(), Some("COM9"));
            assert!(!auto_detect && *verbose && *optimize_transitions);
        }
        other => panic!("{:?}", other),
    }
    assert!(dev.operation_row.is_empty());
    let on = connected();
    let dev = ComponentFactory::create_device_controls(&on);
    let labels: Vec<&str> = dev.connection_row.iter().chain(dev.operation_row.iter()).map(|b| b.label.as_str()).collect();
    assert_eq!(labels, vec!["Disconnect", "Arm Device", "Turn Off", "Shutdown"]);
    assert_eq!(dev.operation_row[1].style, ButtonStyle::Danger);
    let status = ComponentFactory::create_status_display(&idle);
    assert_eq!(status.connection, "Disconnected");
    assert_eq!(status.connection_style, TextStyle::Error);
    assert_eq!(status.operation, "Ready");
    assert_eq!(status.operation_style, TextStyle::Normal);
    assert_eq!(status.parameters, vec!["Parameters not available".to_string()]);
    let mut cached = connected();
    cached.device_state.update_arm_current(100);
    cached.device_state.update_fire_current(200);
    let status = ComponentFactory::create_status_display(&cached);
    assert_eq!(status.parameters, vec!["ARM Current: 100mA".to_string(), "FIRE Current: 200mA".to_string()]);
    assert_eq!(status.connection_style, TextStyle::Success);
    let info = ComponentFactory::create_info_display(&idle);
    assert_eq!(info.info_text, "No device information available");
    assert!(info.action.is_none());
    assert_eq!(info.hint, Some("Connect device to read information".to_string()));
    let info = ComponentFactory::create_info_display(&on);
    assert_eq!(info.action.as_ref().unwrap().label, "Read Device Info");
    cached.device_state.update_device_info(DeviceInfo { firmware_version: "3".into(), model_number: "M".into(), serial_number: "S".into() });
    let info = ComponentFactory::create_info_display(&cached);
    assert_eq!(info.info_text, "Model: M | Serial: S | Firmware: 3");
    assert_eq!(info.action.as_ref().unwrap().label, "Refresh Info");
    let cur = ComponentFactory::create_current_controls(&on);
    assert!(cur.enabled);
    assert_eq!(cur.input, "");
}

#[test]
fn application_window() {
    let (app, first) = LumidoxApplication::new(Some("COM2".into()), true, false, true);
    match first {
        Some(Message::Device(DeviceMessage::Connect { port_name, auto_detect, .. })) => {
            assert_eq!(port_name, Some("COM2".to_string()));
            assert!(auto_detect);
        }
        other => panic!("{:?}", other),
    }
    assert_eq!(app.title(), "Lumidox II Controller");
    assert!(!app.is_device_connected());
    assert!(!app.is_busy());
    assert_eq!(app.get_current_view(), AppView::Main);
    assert!(app.validate_state().is_ok());
    let (mut quiet, none) = LumidoxApplication::with_config(None, false, false, true);
    assert!(none.is_none());
    quiet.get_state_mut().set_connection_state(ConnectionState::Connected);
    assert!(quiet.is_device_connected());
    let v = quiet.view();
    assert_eq!(v.header.status.text, "Connected");
    assert_eq!(v.device_controls.connection_row[0].label, "Disconnect");
    let cmd = quiet.update(MessageFactory::fire_stage(4));
    assert!(matches!(cmd, HandlerCommand::FireStage { stage: 4 }));
    assert!(quiet.synchronize_with_device(false).is_ok());
    assert!(quiet.shutdown());
    assert!(quiet.get_state().app_state.validation.arm_current_message.is_none());
    let mut off = LumidoxApplication::with_config(None, false, false, true).0;
    assert!(!off.shutdown());
}

#[test]
fn settings_change_through_handlers() {
    let mut s = UnifiedState::new();
    UiHandlers::handle_setting_changed(&mut s, "auto_refresh_interval".into(), "30".into());
    assert_eq!(s.app_state.settings.auto_refresh_interval, 30);
    assert_eq!(s.app_state.notifications.message, Some("Auto-refresh interval set to 30 seconds".to_string()));
    UiHandlers::handle_setting_changed(&mut s, "auto_refresh_interval".into(), "soon".into());
    assert_eq!(s.app_state.settings.auto_refresh_interval, 30);
    assert_eq!(s.app_state.notifications.message, Some("Invalid auto-refresh interval value".to_string()));
    UiHandlers::handle_setting_changed(&mut s, "show_confirmations".into(), "False".into());
    assert!(!s.app_state.settings.show_confirmations);
    assert_eq!(s.app_state.notifications.message, Some("Confirmation dialogs disabled".to_string()));
    let cmd = HandlerCoordinator::update(&mut s, Message::Ui(UiMessage::ThemeChanged { theme_name: "dark".into() }));
    assert!(matches!(cmd, HandlerCommand::Nothing));
    assert_eq!(s.app_state.settings.theme, "dark");
    assert_eq!(s.app_state.notifications.message, Some("Theme changed to dark".to_string()));
    UiHandlers::handle_setting_changed(&mut s, "volume".into(), "11".into());
    assert_eq!(s.app_state.notifications.message, Some("Unknown setting: volume".to_string()));
    assert_eq!(s.app_state.notifications.notification_type, NotificationType::Warning);
}

#[test]
fn notifications_through_handlers() {
    let mut s = UnifiedState::new();
    UiHandlers::handle_show_notification(&mut s, "Hello".into(), NotificationType::Info, Some(1));
    assert!(s.app_state.notifications.visible);
    UiHandlers::handle_tick(&mut s);
    UiHandlers::handle_tick(&mut s);
    assert!(!s.app_state.notifications.visible);
    UiHandlers::handle_show_notification(&mut s, "Stay".into(), NotificationType::Info, None);
    UiHandlers::handle_notification_dismissed(&mut s);
    assert!(!s.app_state.notifications.visible);
}

#[test]
fn panels_by_elapsed_time() {
    let mut s = connected();
    s.device_state.update_arm_current(100);
    s.device_state.update_fire_current(200);
    s.device_state.update_device_info(DeviceInfo { firmware_version: "3".into(), model_number: "M".into(), serial_number: "S".into() });
    let fresh = ComponentFactory::create_status_display_at(&s, 10);
    assert_eq!(fresh.parameters, vec!["ARM Current: 100mA".to_string(), "FIRE Current: 200mA".to_string()]);
    let old = ComponentFactory::create_status_display_at(&s, 5000);
    assert_eq!(old.parameters, vec!["Parameters not available".to_string()]);
    let info = ComponentFactory::create_info_display_at(&s, 10);
    assert_eq!(info.info_text, "Model: M | Serial: S | Firmware: 3");
    let info = ComponentFactory::create_info_display_at(&s, 5000);
    assert_eq!(info.info_text, "No device information available");
    assert_eq!(info.action.as_ref().unwrap().label, "Read Device Info");
}

#[test]
fn application_by_elapsed_time() {
    let (mut app, _) = LumidoxApplication::with_config(None, false, false, true);
    app.get_state_mut().set_connection_state(ConnectionState::Connected);
    app.get_state_mut().device_state.update_device_info(DeviceInfo { firmware_version: "1".into(), model_number: "L".into(), serial_number: "2".into() });
    let v = app.view_at(1);
    assert_eq!(v.header.status.text, "Connected: Model: L | Serial: 2 | Firmware: 1");
    assert_eq!(v.info_display.info_text, "Model: L | Serial: 2 | Firmware: 1");
    let v = app.view_at(5000);
    assert_eq!(v.header.status.text, "Connected");
    assert!(app.synchronize_with_device_after(true, 5000).is_ok());
    assert!(app.get_state().device_state.cached_parameters.last_update.is_none());
}

#[test]
fn reset_keeps_focus_and_last_outcome() {
    let mut s = UnifiedState::new();
    s.app_state.set_input_field_focus("arm_current", true);
    s.app_state.set_last_operation(true);
    s.update_input_field("arm_current", "5".into()).unwrap();
    UiHandlers::handle_reset_state(&mut s);
    assert!(s.app_state.get_input_field("arm_current").unwrap().focused);
    assert_eq!(s.get_arm_current_input(), "");
    assert_eq!(s.app_state.last_operation_success, Some(true));
    assert_eq!(s.app_state.notifications.message, Some("Application state reset".to_string()));
}

#[test]
fn toggles_twice_restore() {
    let mut s = UnifiedState::new();
    let v0 = s.device_state.verbose;
    let o0 = s.device_state.optimize_transitions;
    for _ in 0..2 {
        HandlerCoordinator::update(&mut s, Message::Ui(UiMessage::ToggleVerbose));
        HandlerCoordinator::update(&mut s, Message::Ui(UiMessage::ToggleOptimization));
    }
    assert_eq!(s.device_state.verbose, v0);
    assert_eq!(s.device_state.optimize_transitions, o0);
}
