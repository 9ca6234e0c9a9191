use lumidox_gui::controls::{
    ControlComponents, CurrentControls, DeviceControls, DeviceReadings, StageControls, StagePower,
};
use lumidox_gui::display::{
    CurrentReadings, DeviceParameters, InfoContent, InfoDisplay, InfoReadings, SectionBody, StageReading,
    StatusDisplay,
};
use lumidox_gui::error::{DeviceMode, LumidoxError};
use lumidox_gui::error_display::{
    DisplayComponents, ErrorDisplay, ErrorFamily, ErrorType, Icon,
};
use lumidox_gui::layout::{LayoutComponents, LayoutKind, MainLayout};
use lumidox_gui::view::Tone;

fn dev_err() -> LumidoxError {
    LumidoxError::DeviceError("x".to_string())
}

fn validate_stage(v: &str, max: Option<Result<u16, LumidoxError>>) -> Option<String> {
    ControlComponents::validate_stage_current(v, &max)
}

fn validate_arm(v: &str, max: Option<Result<u16, LumidoxError>>) -> Option<String> {
    ControlComponents::validate_arm_current(v, &max)
}

#[test]
fn stage_current_validation() {
    assert_eq!(validate_stage("", Some(Ok(1000))), Some("Current value is required".to_string()));
    assert_eq!(validate_stage("abc", Some(Ok(1000))), Some("Invalid number format".to_string()));
    assert_eq!(validate_stage("70000", Some(Ok(1000))), Some("Invalid number format".to_string()));
    assert_eq!(validate_stage("0", Some(Ok(1000))), Some("Current cannot be zero".to_string()));
    assert_eq!(validate_stage("0", None), Some("Current cannot be zero".to_string()));
    assert_eq!(validate_stage("1500", Some(Ok(1000))), Some("Current too high (max: 1000mA)".to_string()));
    assert_eq!(validate_stage("1000", Some(Ok(1000))), None);
    assert_eq!(validate_stage("+1", Some(Ok(1000))), None);
    assert_eq!(validate_stage("500", None), Some("Cannot validate - no device".to_string()));
    assert_eq!(validate_stage("500", Some(Err(dev_err()))), Some("Cannot validate - device error".to_string()));
}

#[test]
fn arm_current_validation() {
    assert_eq!(validate_arm("", None), Some("ARM current value is required".to_string()));
    assert_eq!(validate_arm("0", None), Some("ARM current cannot be zero".to_string()));
    assert_eq!(validate_arm("800", Some(Ok(700))), Some("ARM current too high (max: 700mA)".to_string()));
    assert_eq!(validate_arm("800", Some(Ok(800))), None);
    assert_eq!(validate_arm("8x", Some(Ok(800))), Some("Invalid number format".to_string()));
}

#[test]
fn validation_feedback() {
    let fb = |v: &str, m: Option<&str>, max: Option<Result<u16, LumidoxError>>| {
        let b = CurrentControls::create_validation_display(v, m, &max);
        (b.text, b.tone)
    };
    assert_eq!(fb("12", Some("Bad value"), Some(Ok(100))), ("Bad value".to_string(), Tone::Danger));
    assert_eq!(fb("", None, Some(Ok(100))), ("Enter a current value".to_string(), Tone::Neutral));
    assert_eq!(fb("1x", None, Some(Ok(100))), ("Invalid number format".to_string(), Tone::Danger));
    assert_eq!(fb("12", None, None), ("Cannot validate - no device".to_string(), Tone::Neutral));
    assert_eq!(fb("12", None, Some(Err(dev_err()))), ("Cannot validate - device error".to_string(), Tone::Caution));
    assert_eq!(fb("120", None, Some(Ok(100))), ("Current too high (max: 100mA)".to_string(), Tone::Danger));
    assert_eq!(fb("0", None, Some(Ok(100))), ("Current cannot be zero".to_string(), Tone::Danger));
    assert_eq!(fb("100", None, Some(Ok(100))), ("Valid current value".to_string(), Tone::Success));
}

#[test]
fn feedback_agrees_with_validation_on_samples() {
    for v in ["1", "0", "99", "100", "101", "abc", "+7", "65536"] {
        let b = CurrentControls::create_validation_display(v, None, &Some(Ok(100)));
        let problem = validate_stage(v, Some(Ok(100)));
        assert_eq!(b.tone == Tone::Success, problem.is_none(), "{}", v);
        match problem {
            Some(p) => assert_eq!(b.text, p),
            None => assert_eq!(b.text, "Valid current value"),
        }
    }
}

fn readings(device: bool) -> DeviceReadings {
    if !device {
        return DeviceReadings { max_current: None, arm_current: None, mode: None, stage_power: None };
    }
    let mut power = Vec::new();
    for i in 1..=5 {
        if i == 4 {
            power.push(Err(dev_err()));
        } else {
            power.push(Ok(StagePower { total: format!("{} W", i), per_well: format!("{} mW", i * 10) }));
        }
    }
    DeviceReadings {
        max_current: Some(Ok(1500)),
        arm_current: Some(Err(dev_err())),
        mode: Some(Ok(DeviceMode::Armed)),
        stage_power: Some(power),
    }
}

#[test]
fn stage_panel() {
    let s = StageControls::create_stage_section("250", &readings(true), "fire-custom");
    assert_eq!(s.custom.on_fire, "fire-custom");
    assert_eq!(s.title, "Stage Controls");
    assert_eq!(s.buttons.len(), 5);
    assert_eq!(s.buttons[0].stage, 1);
    assert_eq!(s.buttons[0].label, "Stage 1");
    assert_eq!(s.buttons[0].lines, vec!["1 W".to_string(), "10 mW".to_string()]);
    assert_eq!(s.buttons[3].lines, vec!["Power: N/A".to_string()]);
    assert_eq!(s.buttons[4].label, "Stage 5");
    assert_eq!(s.custom.max_text, "Max: 1500mA");
    assert_eq!(s.custom.input, "250");
    assert_eq!(s.custom.placeholder, "Enter current (mA)");
    assert_eq!(s.custom.fire_label, "Fire Custom");

    let n = StageControls::create_stage_section("", &readings(false), 0u8);
    assert!(n.buttons.iter().all(|b| b.lines == vec!["No Device".to_string()]));
    assert_eq!(n.custom.max_text, "Max: N/A");
    let u = StageControls::create_custom_current_control("1", &Some(Err(dev_err())), 7u8);
    assert_eq!(u.on_fire, 7);
    assert_eq!(u.max_text, "Max: Unknown");
}

#[test]
fn device_panel() {
    let b = DeviceControls::create_device_buttons("arm", "off", "quit");
    let triples: Vec<(String, String, &str)> = b.into_iter().map(|c| (c.label, c.caption, c.on_press)).collect();
    assert_eq!(
        triples,
        vec![
            ("ARM".to_string(), "Prepare for firing".to_string(), "arm"),
            ("TURN OFF".to_string(), "Safe mode".to_string(), "off"),
            ("SHUTDOWN".to_string(), "Exit program".to_string(), "quit"),
        ]
    );
    let ind = |c: bool, m: Option<Result<DeviceMode, LumidoxError>>| {
        let b = DeviceControls::create_status_indicator(c, &m);
        (b.text, b.tone)
    };
    assert_eq!(ind(false, Some(Ok(DeviceMode::Remote))), ("DISCONNECTED".to_string(), Tone::Danger));
    assert_eq!(ind(true, Some(Ok(DeviceMode::Local))), ("LOCAL MODE".to_string(), Tone::Caution));
    assert_eq!(ind(true, Some(Ok(DeviceMode::Standby))), ("REMOTE STANDBY".to_string(), Tone::Ready));
    assert_eq!(ind(true, Some(Ok(DeviceMode::Armed))), ("ARMED".to_string(), Tone::Armed));
    assert_eq!(ind(true, Some(Ok(DeviceMode::Remote))), ("REMOTE ACTIVE".to_string(), Tone::Success));
    assert_eq!(ind(true, Some(Err(dev_err()))), ("STATUS UNKNOWN".to_string(), Tone::Neutral));
    assert_eq!(ind(true, None), ("NO DEVICE".to_string(), Tone::Neutral));
    let s = DeviceControls::create_device_section(true, &Some(Ok(DeviceMode::Armed)), 1u8, 2u8, 3u8);
    assert_eq!(s.title, "Device Controls");
    assert_eq!(s.buttons.iter().map(|b| b.on_press).collect::<Vec<u8>>(), vec![1, 2, 3]);
    assert_eq!(s.indicator.text, "ARMED");
}

#[test]
fn current_panel() {
    let s = CurrentControls::create_current_section("900", None, &readings(true), "set");
    assert_eq!(s.control.on_set, "set");
    assert_eq!(s.title, "Current Controls");
    assert_eq!(s.control.heading, "ARM Current Setting");
    assert_eq!(s.control.current_text, "Current ARM: Unknown");
    assert_eq!(s.control.max_text, "Max: 1500mA");
    assert_eq!(s.control.input, "900");
    assert_eq!(s.control.placeholder, "Enter ARM current (mA)");
    assert_eq!(s.control.set_label, "Set ARM Current");
    assert_eq!(s.validation.text, "Valid current value");
    let c = CurrentControls::create_arm_current_control("", &Some(Ok(800)), &None, ());
    assert_eq!(c.current_text, "Current ARM: 800mA");
    assert_eq!(c.max_text, "Max: N/A");
    let panel = ControlComponents::create_controls_panel("1", "2", Some("bad"), false, &readings(false), 1, 2, 3, 4, 5);
    assert_eq!(panel.current_section.validation.text, "bad");
    assert_eq!(panel.device_section.indicator.text, "DISCONNECTED");
    assert_eq!(panel.stage_section.custom.on_fire, 1);
    assert_eq!(panel.current_section.control.on_set, 2);
    assert_eq!(panel.device_section.buttons.iter().map(|b| b.on_press).collect::<Vec<i32>>(), vec![3, 4, 5]);
    assert_eq!(ControlComponents::create_stage_controls_only("3", &readings(false), ()).custom.input, "3");
    assert_eq!(ControlComponents::create_device_controls_only(true, &None, 'a', 'b', 'c').indicator.text, "NO DEVICE");
    assert_eq!(ControlComponents::create_current_controls_only("", None, &readings(false), ()).validation.text, "Enter a current value");
}

#[test]
fn status_panels() {
    let c = StatusDisplay::create_connection_indicator(true);
    assert_eq!((c.text.as_str(), c.tone), ("CONNECTED", Tone::Success));
    let d = StatusDisplay::create_connection_indicator(false);
    assert_eq!((d.text.as_str(), d.tone), ("DISCONNECTED", Tone::Danger));
    let m = StatusDisplay::create_device_mode_display(&Some(Ok(DeviceMode::Standby)));
    assert_eq!((m.text.as_str(), m.tone), ("Remote Standby", Tone::Ready));
    assert_eq!(StatusDisplay::create_device_mode_display(&Some(Err(dev_err()))).text, "Mode Unknown");
    assert_eq!(StatusDisplay::create_device_mode_display(&None).text, "No Device");
    let r = StatusDisplay::create_remote_mode_display(&Some(Ok(DeviceMode::Armed)));
    assert_eq!(r.status.text, "Armed State");
    assert_eq!(r.description, "Device armed and ready to fire");
    assert_eq!(r.status.tone, Tone::Armed);
    let r = StatusDisplay::create_remote_mode_display(&Some(Ok(DeviceMode::Local)));
    assert_eq!((r.status.text.as_str(), r.description.as_str()), ("Local Control", "Device controlled locally"));
    let r = StatusDisplay::create_remote_mode_display(&Some(Err(dev_err())));
    assert_eq!((r.status.text.as_str(), r.description.as_str(), r.status.tone), ("Status Error", "Cannot read device status", Tone::Danger));
    let r = StatusDisplay::create_remote_mode_display(&None);
    assert_eq!((r.status.text.as_str(), r.description.as_str()), ("No Device", "Device not connected"));
    let s = |c: bool, m: Option<Result<DeviceMode, LumidoxError>>| StatusDisplay::create_status_summary(c, &m).text;
    assert_eq!(s(false, None), "DISCONNECTED");
    assert_eq!(s(true, Some(Ok(DeviceMode::Local))), "LOCAL");
    assert_eq!(s(true, Some(Ok(DeviceMode::Standby))), "STANDBY");
    assert_eq!(s(true, Some(Ok(DeviceMode::Armed))), "ARMED");
    assert_eq!(s(true, Some(Ok(DeviceMode::Remote))), "REMOTE");
    assert_eq!(s(true, Some(Err(dev_err()))), "ERROR");
    assert_eq!(s(true, None), "NO DEVICE");
    let st = StatusDisplay::create_device_status(true, &Some(Ok(DeviceMode::Remote)));
    assert_eq!(st.title, "Device Status");
    assert_eq!(st.connection.text, "CONNECTED");
    assert_eq!(st.mode.text, "Remote Active");
    assert_eq!(st.remote.description, "Remote control active");
}

fn info_readings() -> InfoReadings {
    let stages = (1..=5)
        .map(|i| {
            if i == 2 {
                Err(dev_err())
            } else if i == 3 {
                Ok(StageReading { power: format!("{} W", i), irradiance: Err(dev_err()) })
            } else {
                Ok(StageReading { power: format!("{} W", i), irradiance: Ok("1.500 mW/cm2".to_string()) })
            }
        })
        .collect();
    InfoReadings {
        parameters: Some(Ok(DeviceParameters {
            arm_current: 120,
            voltages: vec!["1.5".to_string(), "2".to_string(), "2.5".to_string(), "3".to_string(), "3.5".to_string()],
        })),
        currents: Some(CurrentReadings { arm_current: Ok(120), fire_current: Err(dev_err()), synchronized: Ok(false) }),
        stages: Some(stages),
    }
}

#[test]
fn information_panel() {
    let p = InfoDisplay::create_device_info(&info_readings());
    assert_eq!(p.title, "Device Information");
    assert_eq!(p.parameters.title, "Device Parameters");
    match p.parameters.body {
        SectionBody::Shown(InfoContent::Rows(rows)) => {
            let pairs: Vec<(String, String)> = rows.into_iter().map(|r| (r.label, r.value)).collect();
            assert_eq!(pairs[0], ("ARM Current:".to_string(), "120mA".to_string()));
            assert_eq!(pairs[1], ("Voltage 1:".to_string(), "1.5V".to_string()));
            assert_eq!(pairs[5], ("Voltage 5:".to_string(), "3.5V".to_string()));
            assert_eq!(pairs.len(), 6);
        }
        other => panic!("{:?}", other),
    }
    let c = shown(p.currents.body);
    assert_eq!(p.currents.title, "Current Settings");
    assert_eq!((c.arm.label.as_str(), c.arm.value.as_str()), ("ARM Current:", "120mA"));
    assert_eq!((c.fire.label.as_str(), c.fire.value.as_str()), ("Fire Current:", "Error"));
    assert_eq!((c.sync.text.as_str(), c.sync.tone), ("Not Synchronized", Tone::Caution));
    let lines = shown(p.stages.body);
    assert_eq!(p.stages.title, "Stage Information");
    assert_eq!(lines[0].label, "Stage 1:");
    assert_eq!(lines[0].value, "1 W");
    assert_eq!(lines[0].irradiance, Some("1.500 mW/cm2".to_string()));
    assert_eq!(lines[1].value, "Error reading stage data");
    assert!(lines[1].irradiance.is_none());
    assert_eq!(lines[2].irradiance, Some("Error calculating irradiance".to_string()));
}

#[test]
fn information_panel_failures() {
    let p = InfoDisplay::create_device_parameters_display(&Some(Err(LumidoxError::CommunicationError("timeout".to_string()))));
    match p.body {
        SectionBody::Shown(InfoContent::Failed { heading, detail }) => {
            assert_eq!(heading, "Parameter Error");
            assert_eq!(detail, "Failed to read parameters: Communication error: timeout");
        }
        other => panic!("{:?}", other),
    }
    let none = InfoDisplay::create_device_info(&InfoReadings { parameters: None, currents: None, stages: None });
    assert!(matches!(none.parameters.body, SectionBody::NoDevice(ref t) if t == "No Device Connected"));
    assert!(matches!(none.currents.body, SectionBody::NoDevice(ref t) if t == "No Device Connected"));
    assert!(matches!(none.stages.body, SectionBody::NoDevice(ref t) if t == "No Device Connected"));
    let sync = InfoDisplay::create_current_settings_display(&Some(CurrentReadings { arm_current: Err(dev_err()), fire_current: Ok(5), synchronized: Ok(true) }));
    let b = shown(sync.body);
    assert_eq!(b.sync.text, "Synchronized");
    assert_eq!(b.fire.value, "5mA");
    let unknown = InfoDisplay::create_current_settings_display(&Some(CurrentReadings { arm_current: Ok(1), fire_current: Ok(2), synchronized: Err(dev_err()) }));
    assert_eq!(shown(unknown.body).sync.tone, Tone::Danger);
}

fn shown<T: std::fmt::Debug>(b: SectionBody<T>) -> T {
    match b {
        SectionBody::Shown(t) => t,
        other => panic!("{:?}", other),
    }
}

fn all_errors() -> Vec<LumidoxError> {
    vec![
        LumidoxError::DeviceError("d".to_string()),
        LumidoxError::CommunicationError("c".to_string()),
        LumidoxError::ValidationError("v".to_string()),
        LumidoxError::SystemError("s".to_string()),
        LumidoxError::ConfigError("g".to_string()),
        LumidoxError::InvalidInput("i".to_string()),
        LumidoxError::InvalidState("t".to_string()),
        LumidoxError::DeviceNotConnected("n".to_string()),
        LumidoxError::DeviceBusy("b".to_string()),
    ]
}

#[test]
fn error_texts_and_titles() {
    let e = all_errors();
    assert_eq!(e[0].to_display_string(), "Device error: d");
    assert_eq!(e[1].to_display_string(), "Communication error: c");
    assert_eq!(e[2].to_display_string(), "Validation error: v");
    assert_eq!(e[3].to_display_string(), "System error: s");
    assert_eq!(e[4].to_display_string(), "Configuration error: g");
    assert_eq!(e[5].to_display_string(), "Invalid input: i");
    assert_eq!(e[6].to_display_string(), "Invalid state: t");
    assert_eq!(e[7].to_display_string(), "Device not connected: n");
    assert_eq!(e[8].to_display_string(), "Device busy: b");
    let titles: Vec<String> = e.iter().map(ErrorDisplay::error_title).collect();
    assert_eq!(
        titles,
        vec![
            "Device Error", "Communication Error", "Validation Error", "System Error",
            "Configuration Error", "Validation Error", "System Error", "Device Error", "Device Error",
        ]
    );
}

#[test]
fn error_messages_and_suggestions() {
    let e = all_errors();
    assert_eq!(ErrorDisplay::format_error_message(&e[0], true), "Device error: d");
    assert_eq!(ErrorDisplay::format_error_message(&e[0], false), "A device operation failed. Check device connection and try again.");
    assert_eq!(ErrorDisplay::format_error_message(&e[1], false), "Communication with device failed. Verify connection and retry.");
    assert_eq!(ErrorDisplay::format_error_message(&e[2], false), "Input validation failed. Please check your input and try again.");
    assert_eq!(ErrorDisplay::format_error_message(&e[3], false), "A system error occurred. Please try again or restart the application.");
    assert_eq!(ErrorDisplay::format_error_message(&e[4], false), "Configuration error detected. Please check settings and try again.");
    assert_eq!(ErrorDisplay::get_recovery_suggestions(&e[1]), "Check the serial connection, verify the correct port is selected, and ensure no other applications are using the device.");
    assert_eq!(ErrorDisplay::get_recovery_suggestions(&e[4]), "Reset configuration to defaults or check configuration file permissions.");
    assert_eq!(ErrorDisplay::get_recovery_suggestions(&e[5]), "Verify your input values are within the acceptable range and format.");
    let m = ErrorDisplay::create_error_message(&e[3], false, true);
    assert_eq!(m.title, "System Error");
    assert_eq!(m.family, ErrorFamily::System);
    assert_eq!(m.retry_label, Some("Retry".to_string()));
    assert_eq!(m.dismiss_label, "Dismiss");
    assert!(ErrorDisplay::create_error_message(&e[3], true, false).retry_label.is_none());
    let r = ErrorDisplay::create_error_recovery(&e[0]);
    assert_eq!(r.title, "Recovery Options");
    assert_eq!(r.suggestions, "Try reconnecting to the device or check if the device is powered on and properly connected.");
    assert_eq!(r.buttons, vec!["Reconnect".to_string(), "Reset".to_string(), "Continue".to_string()]);
    assert_eq!(DisplayComponents::create_error_recovery(&e[3]).suggestions, "Try restarting the application or check system resources.");
}

#[test]
fn gui_error_formatting_and_severity() {
    let e = all_errors();
    assert_eq!(DisplayComponents::format_error_for_gui(&e[0], true), "Device error: d");
    assert_eq!(DisplayComponents::format_error_for_gui(&e[0], false), "Device operation failed. Please check the device connection and try again.");
    assert_eq!(DisplayComponents::format_error_for_gui(&e[1], false), "Communication with device failed. Please verify the connection and retry.");
    assert_eq!(DisplayComponents::format_error_for_gui(&e[2], false), "Input validation failed. Please check your input values and try again.");
    assert_eq!(DisplayComponents::format_error_for_gui(&e[3], false), "A system error occurred. Please try again or restart the application.");
    assert_eq!(DisplayComponents::format_error_for_gui(&e[4], false), "Configuration error detected. Please check your settings and try again.");
    let sev: Vec<ErrorType> = e.iter().map(DisplayComponents::get_error_severity).collect();
    assert_eq!(
        sev,
        vec![
            ErrorType::Error, ErrorType::Error, ErrorType::Warning, ErrorType::Error, ErrorType::Warning,
            ErrorType::Warning, ErrorType::Error, ErrorType::Error, ErrorType::Error,
        ]
    );
}

#[test]
fn toasts_and_inline_validation() {
    let t = ErrorDisplay::create_toast_notification("Saved", ErrorType::Success);
    assert_eq!((t.message.as_str(), t.icon, t.tone), ("Saved", Icon::Check, Tone::Success));
    let t = DisplayComponents::create_toast_notification("Careful", ErrorType::Warning);
    assert_eq!((t.icon, t.tone), (Icon::Warning, Tone::Caution));
    let t = ErrorDisplay::create_toast_notification("Oops", ErrorType::Error);
    assert_eq!((t.icon, t.tone), (Icon::Warning, Tone::Danger));
    let t = ErrorDisplay::create_toast_notification("FYI", ErrorType::Info);
    assert_eq!((t.icon, t.tone), (Icon::Info, Tone::Ready));
    let v = ErrorDisplay::create_inline_validation("", "ARM Current");
    assert_eq!((v.text.as_str(), v.icon, v.tone), ("ARM Current is valid", Icon::Check, Tone::Success));
    let v = DisplayComponents::create_inline_validation("Current value too high", "ARM Current");
    assert_eq!((v.text.as_str(), v.icon, v.tone), ("Current value too high", Icon::Warning, Tone::Danger));
}

#[test]
fn display_coordination() {
    let p = DisplayComponents::create_info_panel(false, &None, &info_readings());
    assert_eq!(p.status.connection.text, "DISCONNECTED");
    assert_eq!(p.info.title, "Device Information");
    assert_eq!(DisplayComponents::create_status_display_only(true, &None).mode.text, "No Device");
    assert_eq!(DisplayComponents::create_status_summary(true, &Some(Ok(DeviceMode::Standby))).text, "STANDBY");
    assert_eq!(DisplayComponents::create_info_display_only(&info_readings()).stages.title, "Stage Information");
    let n = DisplayComponents::create_error_notification(&all_errors()[1], false, false);
    assert_eq!(n.title, "Communication Error");
}

#[test]
fn header_and_layout() {
    let h = MainLayout::create_app_header(true, Some("Lumidox II"));
    assert_eq!(h.title, "Lumidox II Controller");
    assert_eq!((h.status.text.as_str(), h.status.tone), ("Connected: Lumidox II", Tone::Success));
    assert_eq!(MainLayout::create_app_header(true, None).status.text, "Connected");
    let d = MainLayout::create_app_header(false, Some("x"));
    assert_eq!((d.status.text.as_str(), d.status.tone), ("Disconnected", Tone::Danger));
    assert_eq!(LayoutComponents::create_responsive_layout(1200), LayoutKind::Horizontal);
    assert_eq!(LayoutComponents::create_responsive_layout(1920), LayoutKind::Horizontal);
    assert_eq!(LayoutComponents::create_responsive_layout(1199), LayoutKind::Standard);
    assert_eq!(LayoutComponents::create_responsive_layout(800), LayoutKind::Standard);
    assert_eq!(LayoutComponents::create_responsive_layout(799), LayoutKind::Compact);
    assert_eq!(LayoutComponents::create_responsive_layout(0), LayoutKind::Compact);
}

#[test]
fn device_reading_needed_only_for_a_positive_number() {
    for (v, needed) in [("", false), ("abc", false), ("0", false), ("+0", false), ("70000", false), ("1", true), ("+250", true)] {
        assert_eq!(ControlComponents::needs_max_current(v), needed, "{}", v);
        if !needed {
            assert_eq!(validate_stage(v, Some(Ok(1))), validate_stage(v, None));
            assert_eq!(validate_arm(v, Some(Err(dev_err()))), validate_arm(v, None));
        }
    }
    assert!(CurrentControls::needs_max_current("0", None));
    assert!(!CurrentControls::needs_max_current("5", Some("bad")));
    assert!(!CurrentControls::needs_max_current("x", None));
    let with = CurrentControls::create_validation_display("x", None, &Some(Ok(5)));
    let without = CurrentControls::create_validation_display("x", None, &None);
    assert_eq!((with.text, with.tone), (without.text, without.tone));
}
