use lumidox_gui::app_state::NotificationState;
use lumidox_gui::app_state::NotificationType;
use lumidox_gui::controls::ControlComponents;
use lumidox_gui::device_handlers::DeviceHandlers;
use lumidox_gui::device_messages::DeviceMessage;
use lumidox_gui::device_state::ConnectionState;
use lumidox_gui::error::LumidoxError;
use lumidox_gui::gui::{update, AppState as WindowState, GuiTask, Message as WindowMessage};
use lumidox_gui::handlers::HandlerCoordinator;
use lumidox_gui::messages::{Message, MessageRouter};
use lumidox_gui::text::parse_u16_text;
use lumidox_gui::ui_messages::UiMessage;
use lumidox_gui::unified_state::UnifiedState;

fn all_device_messages() -> Vec<DeviceMessage> {
    vec![
        DeviceMessage::Connect { port_name: None, auto_detect: true, verbose: false, optimize_transitions: true },
        DeviceMessage::Disconnect,
        DeviceMessage::FireStage { stage: 1 },
        DeviceMessage::FireCustom { current: 10 },
        DeviceMessage::SetArmCurrent { current: 10 },
        DeviceMessage::ArmDevice,
        DeviceMessage::TurnOffDevice,
        DeviceMessage::ShutdownDevice,
        DeviceMessage::ReadDeviceStatus,
        DeviceMessage::ReadDeviceInfo,
        DeviceMessage::ReadArmCurrent,
        DeviceMessage::ReadFireCurrent,
        DeviceMessage::ReadRemoteMode,
        DeviceMessage::ReadStageParameters { stage: 2 },
        DeviceMessage::RefreshParameters,
    ]
}

fn states() -> Vec<UnifiedState> {
    let idle = UnifiedState::new();
    let mut on = UnifiedState::new();
    on.set_connection_state(ConnectionState::Connected);
    let mut busy = UnifiedState::new();
    busy.set_connection_state(ConnectionState::Connected);
    busy.set_busy(true, Some("x".to_string()));
    vec![idle, on, busy]
}

#[test]
fn law_destructive_operations_need_a_connection() {
    for d in all_device_messages() {
        if d.is_destructive() {
            assert!(d.requires_connection(), "{:?}", d);
        }
    }
}

#[test]
fn law_queued_messages_are_refused() {
    for s in states() {
        for d in all_device_messages() {
            let m = Message::Device(d);
            assert_eq!(MessageRouter::should_queue_message(&m, &s), m.validate(&s).is_err(), "{:?}", m);
        }
    }
}

#[test]
fn law_notification_expires_after_its_timer() {
    let mut n = NotificationState::new();
    n.show("Done".to_string(), NotificationType::Info, Some(3));
    for _ in 0..3 {
        n.update_timer();
        assert!(n.visible);
        assert_eq!(n.message, Some("Done".to_string()));
    }
    n.update_timer();
    assert!(!n.visible && n.message.is_none() && n.auto_dismiss_timer.is_none());
}

#[test]
fn law_busy_until_completed() {
    let mut s = states().remove(1);
    HandlerCoordinator::update(&mut s, Message::Device(DeviceMessage::ArmDevice));
    assert!(s.app_state.busy);
    HandlerCoordinator::update(&mut s, Message::DeviceOperationCompleted(DeviceHandlers::handle_arm_device(Some(Ok(())))));
    assert!(!s.app_state.busy);
    assert_eq!(s.app_state.last_operation_success, Some(true));
}

#[test]
fn law_arm_current_round_trip() {
    for c in [1u16, 9, 10, 405, 5000, 65535] {
        let mut s = states().remove(1);
        let r = DeviceHandlers::handle_set_arm_current(c, Some(Ok(())));
        HandlerCoordinator::update(&mut s, Message::DeviceOperationCompleted(r));
        assert_eq!(s.device_state.cached_parameters.arm_current, Some(c));
    }
}

#[test]
fn law_accepted_current_within_maximum() {
    for v in ["1", "250", "+250", "0250", "1000"] {
        assert!(ControlComponents::validate_stage_current(v, &Some(Ok(1000))).is_none());
        let c = parse_u16_text(v).unwrap();
        assert!(1 <= c && c <= 1000);
    }
    assert!(ControlComponents::validate_stage_current("1001", &Some(Ok(1000))).is_some());
    assert!(ControlComponents::validate_stage_current("250", &None).is_some());
}

#[test]
fn law_typed_input_is_kept() {
    let mut s = UnifiedState::new();
    HandlerCoordinator::update(&mut s, Message::Ui(UiMessage::InputUpdated { field_name: "stage_current".to_string(), value: "777".to_string() }));
    assert_eq!(s.get_stage_current_input(), "777");
    HandlerCoordinator::update(&mut s, Message::Ui(UiMessage::InputUpdated { field_name: "notes".to_string(), value: "abc".to_string() }));
    assert_eq!(s.app_state.get_input_field("notes").unwrap().value, "abc");
    assert_eq!(s.get_stage_current_input(), "777");
}

#[test]
fn law_no_device_work_while_disconnected() {
    let msgs = vec![
        WindowMessage::FireStage(2),
        WindowMessage::FireWithCurrent,
        WindowMessage::ArmDevice,
        WindowMessage::TurnOff,
        WindowMessage::RefreshStatus,
        WindowMessage::CurrentChanged("1".to_string()),
        WindowMessage::OperationResult(Err(LumidoxError::DeviceError("x".to_string()))),
        WindowMessage::Tick,
    ];
    for m in msgs {
        let mut s = WindowState::default();
        let task = update(&mut s, m);
        assert!(matches!(task, GuiTask::Idle));
    }
}

#[test]
fn law_outcome_shown() {
    let mut s = WindowState::default();
    update(&mut s, WindowMessage::OperationResult(Ok("Fine".to_string())));
    assert_eq!(s.status_message, "Fine");
    update(&mut s, WindowMessage::OperationResult(Err(LumidoxError::ConfigError("c".to_string()))));
    assert_eq!(s.status_message, "Fine");
    assert_eq!(s.error_message, Some("Operation failed: Configuration error: c".to_string()));
}
