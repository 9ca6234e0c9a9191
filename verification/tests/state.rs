use lumidox_gui::app_state::{AppState, AppView, NotificationState, NotificationType, ValidationState};
use lumidox_gui::device_state::{CachedParameters, ConnectionState, DeviceState, OperationState};
use lumidox_gui::error::{DeviceInfo, DeviceMode};
use lumidox_gui::text::{decimal_text, parse_u16_text, parse_u32_text, strip_milliamps, text_chars, text_reads_true};
use lumidox_gui::unified_state::{StateManager, UnifiedState};

#[test]
fn decimal_and_parsing() {
    assert_eq!(decimal_text(0), "0");
    assert_eq!(decimal_text(405), "405");
    assert_eq!(decimal_text(u64::MAX), u64::MAX.to_string());
    assert_eq!(parse_u16_text("405"), Some(405));
    assert_eq!(parse_u16_text("+405"), Some(405));
    assert_eq!(parse_u16_text("0065535"), Some(65535));
    assert_eq!(parse_u16_text("65536"), None);
    assert_eq!(parse_u16_text(""), None);
    assert_eq!(parse_u16_text("+"), None);
    assert_eq!(parse_u16_text("-1"), None);
    assert_eq!(parse_u16_text(" 1"), None);
    assert_eq!(parse_u32_text("4294967295"), Some(4294967295));
    assert_eq!(parse_u32_text("4294967296"), None);
    for n in [0u16, 1, 9, 10, 999, 5000, 65535] {
        assert_eq!(parse_u16_text(&decimal_text(n as u64)), Some(n));
        assert_eq!(parse_u16_text(&n.to_string()), "0".parse::<u16>().ok().map(|_| n));
    }
    let s: String = strip_milliamps(&text_chars("1000mA")).into_iter().collect();
    assert_eq!(s, "1000");
    let s: String = strip_milliamps(&text_chars("1mA2mA")).into_iter().collect();
    assert_eq!(s, "12");
    assert!(text_reads_true("TRUE"));
    assert!(text_reads_true("true"));
    assert!(!text_reads_true("yes"));
}

#[test]
fn notification_timer_counts_down_and_expires() {
    let mut n = NotificationState::new();
    n.show("Saved".to_string(), NotificationType::Success, Some(2));
    n.update_timer();
    assert_eq!(n.auto_dismiss_timer, Some(1));
    assert!(n.visible);
    n.update_timer();
    assert_eq!(n.auto_dismiss_timer, Some(0));
    assert_eq!(n.message, Some("Saved".to_string()));
    n.update_timer();
    assert!(!n.visible);
    assert!(n.message.is_none());
    assert!(n.auto_dismiss_timer.is_none());
    let mut stay = NotificationState::new();
    stay.show("Hold".to_string(), NotificationType::Info, None);
    stay.update_timer();
    assert!(stay.visible);
    stay.dismiss();
    assert!(!stay.visible);
}

#[test]
fn validation_state() {
    let mut v = ValidationState::new();
    assert!(v.has_errors());
    v.clear_all();
    assert!(!v.has_errors());
    v.add_general_error("bad".to_string());
    assert!(v.has_errors());
    v.clear_all();
    v.set_arm_current_validation(false, Some("x".to_string()));
    assert!(v.has_errors());
    v.set_arm_current_validation(true, None);
    v.set_stage_current_validation(true, None);
    assert!(!v.has_errors());
}

#[test]
fn app_state_input_fields() {
    let mut a = AppState::new();
    assert_eq!(a.current_view, AppView::Main);
    assert_eq!(a.get_input_field("arm_current").unwrap().value, "");
    assert!(a.get_input_field("other").is_none());
    a.update_input_field("arm_current", "800".to_string());
    let f = a.get_input_field("arm_current").unwrap();
    assert_eq!(f.value, "800");
    assert!(f.modified);
    a.update_input_field("notes", "hi".to_string());
    assert_eq!(a.get_input_field("notes").unwrap().value, "hi");
    assert_eq!(a.get_input_field("stage_current").unwrap().value, "");
    a.set_input_field_focus("notes", true);
    assert!(a.get_input_field("notes").unwrap().focused);
    if let Some(f) = a.get_input_field_mut("stage_current") {
        f.set_value("123".to_string());
    }
    assert_eq!(a.get_input_field("stage_current").unwrap().value, "123");
    assert!(a.get_input_field_mut("missing").is_none());
    a.clear_all_inputs();
    assert_eq!(a.get_input_field("arm_current").unwrap().value, "");
    assert_eq!(a.get_input_field("notes").unwrap().value, "");
    let d = AppState::default();
    assert!(d.get_input_field("arm_current").is_none());
}

#[test]
fn app_state_view_busy_and_notifications() {
    let mut a = AppState::new();
    a.set_view(AppView::Settings);
    assert_eq!(a.current_view, AppView::Settings);
    assert_eq!(a.current_view.name(), "Settings");
    a.set_busy(true);
    assert!(a.busy);
    a.set_last_operation(false);
    assert_eq!(a.last_operation_success, Some(false));
    a.show_notification("Hi".to_string(), NotificationType::Warning, Some(0));
    assert!(a.notifications.visible);
    a.update();
    assert!(!a.notifications.visible);
    a.show_notification("Again".to_string(), NotificationType::Error, None);
    a.hide_notification();
    assert!(!a.notifications.visible);
    assert_eq!(NotificationType::Error.name(), "Error");
}

#[test]
fn cache_and_device_state() {
    let mut c = CachedParameters::new();
    assert!(!c.is_cache_valid());
    c.update_arm_current(700);
    assert!(c.is_cache_valid());
    assert!(c.is_cache_valid_after(4999));
    assert!(!c.is_cache_valid_after(5000));
    c.invalidate();
    assert!(!c.is_cache_valid());
    assert_eq!(c.arm_current, Some(700));
    c.clear_cache();
    assert!(c.arm_current.is_none());
    let d = CachedParameters::default();
    assert_eq!(d.cache_duration, 0);

    let mut s = DeviceState::new();
    assert!(!s.is_connected());
    assert!(s.get_arm_current().is_none());
    s.set_connection_state(ConnectionState::Connected);
    assert!(s.is_connected());
    s.update_arm_current(900);
    s.update_fire_current(1200);
    s.update_remote_mode(DeviceMode::Standby);
    s.update_device_info(DeviceInfo { firmware_version: "1".into(), model_number: "M".into(), serial_number: "S".into() });
    assert_eq!(s.get_arm_current(), Some(900));
    assert_eq!(s.get_fire_current(), Some(1200));
    assert_eq!(s.get_remote_mode(), Some(DeviceMode::Standby));
    assert_eq!(s.get_device_info().unwrap().model_number, "M");
    assert!(!s.needs_cache_refresh());
    s.invalidate_cache();
    assert!(s.get_arm_current().is_none());
    assert!(s.needs_cache_refresh());
    s.set_connection_state(ConnectionState::Failed("lost".to_string()));
    assert!(s.cached_parameters.arm_current.is_none());
    assert_eq!(s.get_connection_description(), "Failed: lost");
    s.set_operation_state(OperationState::Busy("Fire".to_string()));
    assert!(s.is_busy());
    assert_eq!(s.get_operation_description(), "Busy: Fire");
    s.set_error("e".to_string());
    assert_eq!(s.last_error, Some("e".to_string()));
    s.clear_error();
    assert!(s.last_error.is_none());
    assert!(s.increment_retry());
    assert!(s.increment_retry());
    assert!(s.increment_retry());
    assert!(!s.increment_retry());
    s.reset_retry();
    assert_eq!(s.retry_count, 0);
    let w = DeviceState::with_config(Some("COM4".to_string()), true, true, false);
    assert_eq!(w.port_name, Some("COM4".to_string()));
    assert!(w.auto_detect && w.verbose && !w.optimize_transitions);
    assert_eq!(ConnectionState::default(), ConnectionState::Disconnected);
    assert_eq!(OperationState::default(), OperationState::Idle);
}

#[test]
fn unified_state_inputs_and_validation() {
    let mut u = UnifiedState::new();
    assert!(u.update_input_field("arm_current", "800".to_string()).is_ok());
    assert_eq!(u.get_arm_current_input(), "800");
    assert!(u.get_arm_current_validation().is_none());
    u.update_input_field("arm_current", "6000".to_string()).unwrap();
    assert_eq!(u.get_arm_current_validation(), Some("ARM current must be between 1 and 5000 mA"));
    u.update_input_field("stage_current", "x".to_string()).unwrap();
    assert_eq!(u.get_stage_current_validation(), Some("Invalid number format"));
    assert_eq!(u.get_stage_current_input(), "x");
    assert!(!u.are_inputs_valid());
    u.update_input_field("stage_current", "".to_string()).unwrap();
    u.update_input_field("arm_current", "5000".to_string()).unwrap();
    assert!(u.are_inputs_valid());
    u.update_input_field("stage_current", "0".to_string()).unwrap();
    assert_eq!(u.get_stage_current_validation(), Some("Stage current must be between 1 and 5000 mA"));
    u.clear();
    assert_eq!(u.get_arm_current_input(), "");
    assert!(u.are_inputs_valid());
}

#[test]
fn unified_state_connection_and_results() {
    let mut u = UnifiedState::with_device_config(None, true, false, true);
    assert!(!u.is_device_connected());
    assert_eq!(u.get_connection_status_display(), "Disconnected");
    assert_eq!(u.get_operation_status_display(), "Ready");
    u.set_connection_state(ConnectionState::Connected);
    assert!(u.is_device_connected());
    assert_eq!(u.app_state.notifications.message, Some("Device connected successfully".to_string()));
    u.set_busy(true, Some("Fire Stage 1".to_string()));
    assert!(u.is_busy());
    assert_eq!(u.get_operation_status_display(), "Busy: Fire Stage 1");
    u.set_operation_result(true, "Stage fired".to_string());
    assert_eq!(u.app_state.last_operation_success, Some(true));
    u.set_busy(false, None);
    assert!(!u.is_busy());
    u.device_state.update_device_info(DeviceInfo { firmware_version: "2.0".into(), model_number: "L2".into(), serial_number: "9".into() });
    assert_eq!(u.get_device_info_display(), Some("Model: L2 | Serial: 9 | Firmware: 2.0".to_string()));
    u.set_connection_state(ConnectionState::Disconnected);
    assert!(u.get_device_info_display().is_none());
    assert_eq!(u.app_state.notifications.message, Some("Device disconnected".to_string()));
    assert!(StateManager::validate_state_consistency(&u).is_ok());
    let s = StateManager::create_initial_state(Some("COM1".to_string()), false, true, true);
    assert_eq!(s.device_state.port_name, Some("COM1".to_string()));
    let mut c = UnifiedState::new();
    c.set_connection_state(ConnectionState::Connected);
    c.device_state.update_arm_current(1);
    c.device_state.invalidate_cache();
    assert!(StateManager::synchronize_with_device(&mut c, true).is_ok());
    assert!(c.device_state.cached_parameters.last_update.is_none());
}

#[test]
fn synchronizing_marks_a_cache_without_validity_stale() {
    let mut u = UnifiedState::new();
    u.set_connection_state(ConnectionState::Connected);
    u.device_state.cached_parameters.cache_duration = 0;
    u.device_state.update_arm_current(10);
    assert!(!u.device_state.cached_parameters.is_cache_valid());
    assert!(u.device_state.needs_cache_refresh());
    assert!(StateManager::synchronize_with_device(&mut u, true).is_ok());
    assert!(u.device_state.cached_parameters.last_update.is_none());
    assert_eq!(u.device_state.cached_parameters.arm_current, Some(10));
    let mut v = UnifiedState::new();
    v.set_connection_state(ConnectionState::Connected);
    v.device_state.update_arm_current(10);
    assert!(StateManager::synchronize_with_device(&mut v, false).is_ok());
    assert!(v.device_state.cached_parameters.last_update.is_some());
}

#[test]
fn cache_reads_by_elapsed_time() {
    let mut s = DeviceState::new();
    s.set_connection_state(ConnectionState::Connected);
    assert_eq!(s.get_arm_current_after(0), None);
    assert!(s.needs_cache_refresh_after(0));
    s.update_arm_current(450);
    s.update_fire_current(900);
    s.update_remote_mode(DeviceMode::Armed);
    s.update_device_info(DeviceInfo { firmware_version: "1".into(), model_number: "M".into(), serial_number: "S".into() });
    assert_eq!(s.get_arm_current_after(0), Some(450));
    assert_eq!(s.get_arm_current_after(4999), Some(450));
    assert_eq!(s.get_arm_current_after(5000), None);
    assert_eq!(s.get_fire_current_after(1000), Some(900));
    assert_eq!(s.get_fire_current_after(u128::MAX), None);
    assert_eq!(s.get_remote_mode_after(10), Some(DeviceMode::Armed));
    assert_eq!(s.get_remote_mode_after(6000), None);
    assert_eq!(s.get_device_info_after(10).unwrap().serial_number, "S");
    assert!(s.get_device_info_after(5000).is_none());
    assert!(!s.needs_cache_refresh_after(4999));
    assert!(s.needs_cache_refresh_after(5000));
    s.invalidate_cache();
    assert_eq!(s.get_arm_current_after(0), None);
    assert!(s.needs_cache_refresh_after(0));
    let mut d = DeviceState::new();
    d.update_arm_current(1);
    assert!(!d.needs_cache_refresh_after(9999));
}

#[test]
fn unified_state_by_elapsed_time() {
    let mut u = UnifiedState::new();
    u.set_connection_state(ConnectionState::Connected);
    u.device_state.update_device_info(DeviceInfo { firmware_version: "2".into(), model_number: "X".into(), serial_number: "7".into() });
    assert_eq!(u.get_device_info_display_after(100), Some("Model: X | Serial: 7 | Firmware: 2".to_string()));
    assert_eq!(u.get_device_info_display_after(5000), None);
    assert!(StateManager::synchronize_with_device_after(&mut u, true, 100).is_ok());
    assert!(u.device_state.cached_parameters.last_update.is_some());
    assert!(StateManager::synchronize_with_device_after(&mut u, false, 8000).is_ok());
    assert!(u.device_state.cached_parameters.last_update.is_some());
    assert!(StateManager::synchronize_with_device_after(&mut u, true, 8000).is_ok());
    assert!(u.device_state.cached_parameters.last_update.is_none());
    assert!(u.device_state.cached_parameters.device_info.is_some());
}
