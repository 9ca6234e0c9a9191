//! The control panels: stage firing, device control and ARM current, with
//! the validation of typed currents. A device reading is passed as an
//! `Option`: `None` when there is no device, else what the device answered.

use vstd::prelude::*;
use vstd::string::*;

use crate::error::{DeviceMode, LumidoxError};
use crate::text::{copy_text, decimal, join2, parse_u16_text, parse_unsigned, text_is_empty, text_then_number, text_with_number};
use crate::view::{badge, badge_is, reading_line, reading_text, Badge, Tone};

verus! {

/// What is wrong with a typed current, if anything. `subject` names the
/// current in the messages (`Current` or `ARM current`); `max` is the
/// device's maximum current reading. A current must be given, read as a
/// `u16`, be nonzero, and be at most the maximum, which needs a device that
/// answers.
pub open spec fn current_problem(
    value: Seq<char>,
    max: Option<Result<u16, LumidoxError>>,
    subject: Seq<char>,
) -> Option<Seq<char>> {
    if value.len() == 0 {
        Some(subject + " value is required"@)
    } else {
        match parse_unsigned(value, 65535) {
            None => Some("Invalid number format"@),
            Some(v) => if v == 0 {
                Some(subject + " cannot be zero"@)
            } else {
                match max {
                    None => Some("Cannot validate - no device"@),
                    Some(Err(_)) => Some("Cannot validate - device error"@),
                    Some(Ok(m)) => if v > m {
                        Some(subject + " too high (max: "@ + decimal(m as nat) + "mA)"@)
                    } else {
                        None
                    },
                }
            },
        }
    }
}

/// Whether validating a typed current needs the device's maximum current:
/// only a number from 1 up does; everything else is decided without it.
pub open spec fn needs_max_reading(value: Seq<char>) -> bool {
    parse_unsigned(value, 65535) matches Some(v) && v >= 1
}

/// Whether an optional text has the view of an optional sequence.
pub open spec fn text_option_is(t: Option<String>, s: Option<Seq<char>>) -> bool {
    match (t, s) {
        (Some(a), Some(b)) => a@ == b,
        (None, None) => true,
        _ => false,
    }
}

/// What is wrong with a typed current, as text.
fn current_problem_text(value: &str, max: &Option<Result<u16, LumidoxError>>, subject: &str) -> (r: Option<String>)
    ensures
        text_option_is(r, current_problem(value@, *max, subject@)),
{
    if text_is_empty(value) {
        return Some(join2(subject, " value is required"));
    }
    match parse_u16_text(value) {
        None => Some(copy_text("Invalid number format")),
        Some(v) => {
            if v == 0 {
                Some(join2(subject, " cannot be zero"))
            } else {
                match max {
                    None => Some(copy_text("Cannot validate - no device")),
                    Some(Err(_)) => Some(copy_text("Cannot validate - device error")),
                    Some(Ok(m)) => {
                        if v > *m {
                            let head = join2(subject, " too high (max: ");
                            let s = text_with_number(head.as_str(), *m as u64, "mA)");
                            Some(s)
                        } else {
                            None
                        }
                    },
                }
            }
        },
    }
}

/// Coordinates the control panels.
pub struct ControlComponents;

/// All three control panels, with the messages their buttons send.
#[derive(Debug)]
pub struct ControlsPanel<M> {
    /// Stage firing.
    pub stage_section: StageSection<M>,
    /// Device control.
    pub device_section: DeviceSection<M>,
    /// ARM current.
    pub current_section: CurrentSection<M>,
}

impl ControlComponents {
    /// Whether validating this typed current needs the device's maximum
    /// current: only a number from 1 up does. The device is read only then;
    /// otherwise the reading passed to the validation does not matter.
    pub fn needs_max_current(current_value: &str) -> (r: bool)
        ensures
            r == needs_max_reading(current_value@),
    {
        match parse_u16_text(current_value) {
            Some(v) => v >= 1,
            None => false,
        }
    }

    /// Why a typed stage current cannot be fired, if it cannot. The maximum
    /// current reading is used only when `needs_max_current` says so.
    pub fn validate_stage_current(current_value: &str, max_current: &Option<Result<u16, LumidoxError>>) -> (r: Option<String>)
        ensures
            text_option_is(r, current_problem(current_value@, *max_current, "Current"@)),
            !needs_max_reading(current_value@) ==> text_option_is(
                r,
                current_problem(current_value@, None, "Current"@),
            ),
    {
        current_problem_text(current_value, max_current, "Current")
    }

    /// Why a typed ARM current cannot be set, if it cannot. The maximum
    /// current reading is used only when `needs_max_current` says so.
    pub fn validate_arm_current(current_value: &str, max_current: &Option<Result<u16, LumidoxError>>) -> (r: Option<String>)
        ensures
            text_option_is(r, current_problem(current_value@, *max_current, "ARM current"@)),
            !needs_max_reading(current_value@) ==> text_option_is(
                r,
                current_problem(current_value@, None, "ARM current"@),
            ),
    {
        current_problem_text(current_value, max_current, "ARM current")
    }

    /// The three control panels, with the messages their buttons send.
    pub fn create_controls_panel<M>(
        stage_current_value: &str,
        arm_current_value: &str,
        arm_validation_message: Option<&str>,
        is_connected: bool,
        readings: &DeviceReadings,
        on_custom_fire: M,
        on_set_arm_current: M,
        on_arm_device: M,
        on_turn_off: M,
        on_shutdown: M,
    ) -> (p: ControlsPanel<M>)
        requires
            readings.stage_power matches Some(v) ==> v@.len() == 5,
        ensures
            StageControls::section_shows(
                p.stage_section,
                stage_current_value@,
                *readings,
                on_custom_fire,
            ),
            DeviceControls::section_shows(
                p.device_section,
                is_connected,
                readings.mode,
                on_arm_device,
                on_turn_off,
                on_shutdown,
            ),
            CurrentControls::section_shows(
                p.current_section,
                arm_current_value@,
                arm_validation_message,
                *readings,
                on_set_arm_current,
            ),
    {
        ControlsPanel {
            stage_section: StageControls::create_stage_section(
                stage_current_value,
                readings,
                on_custom_fire,
            ),
            device_section: DeviceControls::create_device_section(
                is_connected,
                &readings.mode,
                on_arm_device,
                on_turn_off,
                on_shutdown,
            ),
            current_section: CurrentControls::create_current_section(
                arm_current_value,
                arm_validation_message,
                readings,
                on_set_arm_current,
            ),
        }
    }

    /// The stage firing panel alone.
    pub fn create_stage_controls_only<M>(current_value: &str, readings: &DeviceReadings, on_custom_fire: M) -> (s: StageSection<M>)
        requires
            readings.stage_power matches Some(v) ==> v@.len() == 5,
        ensures
            StageControls::section_shows(s, current_value@, *readings, on_custom_fire),
    {
        StageControls::create_stage_section(current_value, readings, on_custom_fire)
    }

    /// The device control panel alone.
    pub fn create_device_controls_only<M>(
        is_connected: bool,
        mode: &Option<Result<DeviceMode, LumidoxError>>,
        on_arm: M,
        on_turn_off: M,
        on_shutdown: M,
    ) -> (s: DeviceSection<M>)
        ensures
            DeviceControls::section_shows(s, is_connected, *mode, on_arm, on_turn_off, on_shutdown),
    {
        DeviceControls::create_device_section(is_connected, mode, on_arm, on_turn_off, on_shutdown)
    }

    /// The ARM current panel alone.
    pub fn create_current_controls_only<M>(
        current_value: &str,
        validation_message: Option<&str>,
        readings: &DeviceReadings,
        on_set_current: M,
    ) -> (s: CurrentSection<M>)
        ensures
            CurrentControls::section_shows(
                s,
                current_value@,
                validation_message,
                *readings,
                on_set_current,
            ),
    {
        CurrentControls::create_current_section(
            current_value,
            validation_message,
            readings,
            on_set_current,
        )
    }
}

/// The power a stage delivers, as the device reports it: its total and its
/// per-well power, each with its unit.
#[derive(Debug)]
pub struct StagePower {
    /// Total power and unit.
    pub total: String,
    /// Per-well power and unit.
    pub per_well: String,
}

/// What the control panels read from the device. Each field is `None` when
/// there is no device.
#[derive(Debug)]
pub struct DeviceReadings {
    /// The maximum current.
    pub max_current: Option<Result<u16, LumidoxError>>,
    /// The ARM current.
    pub arm_current: Option<Result<u16, LumidoxError>>,
    /// The remote mode.
    pub mode: Option<Result<DeviceMode, LumidoxError>>,
    /// The power of stages 1 to 5, in order.
    pub stage_power: Option<Vec<Result<StagePower, LumidoxError>>>,
}

/// A stage button: its stage, its label and the lines under it.
#[derive(Debug)]
pub struct StageButton {
    /// The stage it fires.
    pub stage: u8,
    /// The label.
    pub label: String,
    /// The lines under the label.
    pub lines: Vec<String>,
}

/// The custom current control of the stage panel.
#[derive(Debug)]
pub struct CustomCurrentControl<M> {
    /// The maximum current line.
    pub max_text: String,
    /// The field's text.
    pub input: String,
    /// The field's placeholder.
    pub placeholder: String,
    /// The fire button's label.
    pub fire_label: String,
    /// The message the fire button sends.
    pub on_fire: M,
}

/// The stage panel.
#[derive(Debug)]
pub struct StageSection<M> {
    /// The panel's title.
    pub title: String,
    /// Stages 1 to 5.
    pub buttons: Vec<StageButton>,
    /// The custom current control.
    pub custom: CustomCurrentControl<M>,
}

/// Stage firing controls.
pub struct StageControls;

impl StageControls {
    /// The lines under a stage's button: its total and per-well power, or
    /// `Power: N/A` when the device could not tell it, or `No Device`.
    pub open spec fn stage_lines(power: Option<Seq<Result<StagePower, LumidoxError>>>, i: int) -> Seq<Seq<char>> {
        match power {
            None => seq!["No Device"@],
            Some(p) => match p[i] {
                Ok(sp) => seq![sp.total@, sp.per_well@],
                Err(_) => seq!["Power: N/A"@],
            },
        }
    }

    /// Whether the buttons are those of stages 1 to 5 with these readings.
    pub open spec fn buttons_show(b: Seq<StageButton>, power: Option<Vec<Result<StagePower, LumidoxError>>>) -> bool {
        &&& b.len() == 5
        &&& forall|i: int|
            0 <= i < 5 ==> {
                &&& (#[trigger] b[i]).stage == i + 1
                &&& b[i].label@ == "Stage "@ + decimal((i + 1) as nat)
                &&& b[i].lines@.map_values(|l: String| l@) == Self::stage_lines(
                    match power {
                        Some(v) => Some(v@),
                        None => None,
                    },
                    i,
                )
            }
    }

    /// One button per stage, 1 to 5, each labelled with its stage and the
    /// power the device reports for it.
    pub fn create_stage_buttons(stage_power: &Option<Vec<Result<StagePower, LumidoxError>>>) -> (b: Vec<StageButton>)
        requires
            stage_power matches Some(v) ==> v@.len() == 5,
        ensures
            Self::buttons_show(b@, *stage_power),
    {
        let ghost power = match stage_power {
            Some(v) => Some(v@),
            None => None,
        };
        let mut buttons: Vec<StageButton> = Vec::new();
        let mut stage: u8 = 1;
        while stage <= 5
            invariant
                1 <= stage <= 6,
                buttons@.len() == stage - 1,
                power == match stage_power {
                    Some(v) => Some(v@),
                    None => None,
                },
                stage_power matches Some(v) ==> v@.len() == 5,
                forall|i: int|
                    0 <= i < stage - 1 ==> {
                        &&& (#[trigger] buttons@[i]).stage == i + 1
                        &&& buttons@[i].label@ == "Stage "@ + decimal((i + 1) as nat)
                        &&& buttons@[i].lines@.map_values(|l: String| l@) == Self::stage_lines(
                            power,
                            i,
                        )
                    },
            decreases 6 - stage,
        {
            let mut lines: Vec<String> = Vec::new();
            match stage_power {
                None => {
                    lines.push(copy_text("No Device"));
                },
                Some(v) => {
                    let idx: usize = (stage - 1) as usize;
                    match &v[idx] {
                        Ok(sp) => {
                            lines.push(sp.total.clone());
                            lines.push(sp.per_well.clone());
                        },
                        Err(_) => {
                            lines.push(copy_text("Power: N/A"));
                        },
                    }
                },
            }
            let ghost i: int = stage - 1;
            assert(lines@.map_values(|l: String| l@) =~= Self::stage_lines(power, i));
            buttons.push(
                StageButton { stage, label: text_then_number("Stage ", stage as u64), lines },
            );
            stage = stage + 1;
        }
        buttons
    }

    /// Whether a custom current control shows this field and maximum.
    pub open spec fn custom_shows<M>(
        c: CustomCurrentControl<M>,
        value: Seq<char>,
        max: Option<Result<u16, LumidoxError>>,
        on_fire: M,
    ) -> bool {
        &&& c.on_fire == on_fire
        &&& c.max_text@ == reading_text("Max: "@, max)
        &&& c.input@ == value
        &&& c.placeholder@ == "Enter current (mA)"@
        &&& c.fire_label@ == "Fire Custom"@
    }

    /// The custom current control: the maximum current, the field, and the
    /// fire button.
    pub fn create_custom_current_control<M>(
        current_value: &str,
        max_current: &Option<Result<u16, LumidoxError>>,
        on_fire_custom: M,
    ) -> (c: CustomCurrentControl<M>)
        ensures
            Self::custom_shows(c, current_value@, *max_current, on_fire_custom),
    {
        CustomCurrentControl {
            max_text: reading_line("Max: ", max_current),
            input: copy_text(current_value),
            placeholder: copy_text("Enter current (mA)"),
            fire_label: copy_text("Fire Custom"),
            on_fire: on_fire_custom,
        }
    }

    /// Whether a stage panel shows these readings and this custom current.
    pub open spec fn section_shows<M>(s: StageSection<M>, value: Seq<char>, r: DeviceReadings, on_fire: M) -> bool {
        &&& s.title@ == "Stage Controls"@
        &&& Self::buttons_show(s.buttons@, r.stage_power)
        &&& Self::custom_shows(s.custom, value, r.max_current, on_fire)
    }

    /// The stage panel.
    pub fn create_stage_section<M>(current_value: &str, readings: &DeviceReadings, on_custom_fire: M) -> (s: StageSection<M>)
        requires
            readings.stage_power matches Some(v) ==> v@.len() == 5,
        ensures
            Self::section_shows(s, current_value@, *readings, on_custom_fire),
    {
        StageSection {
            title: copy_text("Stage Controls"),
            buttons: Self::create_stage_buttons(&readings.stage_power),
            custom: Self::create_custom_current_control(
                current_value,
                &readings.max_current,
                on_custom_fire,
            ),
        }
    }
}

/// A device control button: its label and the caption under it.
#[derive(Debug)]
pub struct CaptionedButton<M> {
    /// The label.
    pub label: String,
    /// The caption.
    pub caption: String,
    /// The message a press sends.
    pub on_press: M,
}

/// The device control panel.
#[derive(Debug)]
pub struct DeviceSection<M> {
    /// The panel's title.
    pub title: String,
    /// Arm, turn off and shut down.
    pub buttons: Vec<CaptionedButton<M>>,
    /// The device's state.
    pub indicator: Badge,
}

/// Device control buttons and the device's state.
pub struct DeviceControls;

impl DeviceControls {
    /// Whether the device buttons are arm, turn off and shut down, sending
    /// these messages.
    pub open spec fn buttons_are<M>(b: Seq<CaptionedButton<M>>, on_arm: M, on_turn_off: M, on_shutdown: M) -> bool {
        &&& b.len() == 3
        &&& b[0].label@ == "ARM"@ && b[0].caption@ == "Prepare for firing"@ && b[0].on_press == on_arm
        &&& b[1].label@ == "TURN OFF"@ && b[1].caption@ == "Safe mode"@ && b[1].on_press
            == on_turn_off
        &&& b[2].label@ == "SHUTDOWN"@ && b[2].caption@ == "Exit program"@ && b[2].on_press
            == on_shutdown
    }

    /// The device buttons: arm (prepare for firing), turn off (safe mode) and
    /// shut down (exit the program), each sending its message.
    pub fn create_device_buttons<M>(on_arm: M, on_turn_off: M, on_shutdown: M) -> (b: Vec<CaptionedButton<M>>)
        ensures
            Self::buttons_are(b@, on_arm, on_turn_off, on_shutdown),
    {
        let mut b: Vec<CaptionedButton<M>> = Vec::new();
        b.push(
            CaptionedButton {
                label: copy_text("ARM"),
                caption: copy_text("Prepare for firing"),
                on_press: on_arm,
            },
        );
        b.push(
            CaptionedButton {
                label: copy_text("TURN OFF"),
                caption: copy_text("Safe mode"),
                on_press: on_turn_off,
            },
        );
        b.push(
            CaptionedButton {
                label: copy_text("SHUTDOWN"),
                caption: copy_text("Exit program"),
                on_press: on_shutdown,
            },
        );
        b
    }

    /// The device's state as the indicator shows it: disconnected, else its
    /// remote mode, else why it is not known.
    pub open spec fn indicator(connected: bool, mode: Option<Result<DeviceMode, LumidoxError>>) -> (Seq<char>, Tone) {
        if !connected {
            ("DISCONNECTED"@, Tone::Danger)
        } else {
            match mode {
                Some(Ok(DeviceMode::Local)) => ("LOCAL MODE"@, Tone::Caution),
                Some(Ok(DeviceMode::Standby)) => ("REMOTE STANDBY"@, Tone::Ready),
                Some(Ok(DeviceMode::Armed)) => ("ARMED"@, Tone::Armed),
                Some(Ok(DeviceMode::Remote)) => ("REMOTE ACTIVE"@, Tone::Success),
                Some(Err(_)) => ("STATUS UNKNOWN"@, Tone::Neutral),
                None => ("NO DEVICE"@, Tone::Neutral),
            }
        }
    }

    /// The device's state.
    pub fn create_status_indicator(is_connected: bool, mode: &Option<Result<DeviceMode, LumidoxError>>) -> (b: Badge)
        ensures
            badge_is(b, Self::indicator(is_connected, *mode).0, Self::indicator(is_connected, *mode).1),
    {
        if !is_connected {
            return badge("DISCONNECTED", Tone::Danger);
        }
        match mode {
            Some(Ok(DeviceMode::Local)) => badge("LOCAL MODE", Tone::Caution),
            Some(Ok(DeviceMode::Standby)) => badge("REMOTE STANDBY", Tone::Ready),
            Some(Ok(DeviceMode::Armed)) => badge("ARMED", Tone::Armed),
            Some(Ok(DeviceMode::Remote)) => badge("REMOTE ACTIVE", Tone::Success),
            Some(Err(_)) => badge("STATUS UNKNOWN", Tone::Neutral),
            None => badge("NO DEVICE", Tone::Neutral),
        }
    }

    /// Whether a device panel shows the buttons and this state.
    pub open spec fn section_shows<M>(
        s: DeviceSection<M>,
        connected: bool,
        mode: Option<Result<DeviceMode, LumidoxError>>,
        on_arm: M,
        on_turn_off: M,
        on_shutdown: M,
    ) -> bool {
        &&& s.title@ == "Device Controls"@
        &&& Self::buttons_are(s.buttons@, on_arm, on_turn_off, on_shutdown)
        &&& badge_is(s.indicator, Self::indicator(connected, mode).0, Self::indicator(connected, mode).1)
    }

    /// The device panel.
    pub fn create_device_section<M>(
        is_connected: bool,
        mode: &Option<Result<DeviceMode, LumidoxError>>,
        on_arm: M,
        on_turn_off: M,
        on_shutdown: M,
    ) -> (s: DeviceSection<M>)
        ensures
            Self::section_shows(s, is_connected, *mode, on_arm, on_turn_off, on_shutdown),
    {
        DeviceSection {
            title: copy_text("Device Controls"),
            buttons: Self::create_device_buttons(on_arm, on_turn_off, on_shutdown),
            indicator: Self::create_status_indicator(is_connected, mode),
        }
    }
}

/// The ARM current setting control.
#[derive(Debug)]
pub struct ArmCurrentControl<M> {
    /// The control's heading.
    pub heading: String,
    /// The ARM current line.
    pub current_text: String,
    /// The maximum current line.
    pub max_text: String,
    /// The field's text.
    pub input: String,
    /// The field's placeholder.
    pub placeholder: String,
    /// The set button's label.
    pub set_label: String,
    /// The message the set button sends.
    pub on_set: M,
}

/// The feedback under the ARM current field.
#[derive(Debug)]
pub struct CurrentSection<M> {
    /// The panel's title.
    pub title: String,
    /// The setting control.
    pub control: ArmCurrentControl<M>,
    /// The validation feedback.
    pub validation: Badge,
}

/// ARM current controls.
pub struct CurrentControls;

impl CurrentControls {
    /// Whether an ARM current control shows this field and these readings.
    pub open spec fn control_shows<M>(
        c: ArmCurrentControl<M>,
        value: Seq<char>,
        arm: Option<Result<u16, LumidoxError>>,
        max: Option<Result<u16, LumidoxError>>,
        on_set: M,
    ) -> bool {
        &&& c.on_set == on_set
        &&& c.heading@ == "ARM Current Setting"@
        &&& c.current_text@ == reading_text("Current ARM: "@, arm)
        &&& c.max_text@ == reading_text("Max: "@, max)
        &&& c.input@ == value
        &&& c.placeholder@ == "Enter ARM current (mA)"@
        &&& c.set_label@ == "Set ARM Current"@
    }

    /// The ARM current control: the device's ARM and maximum currents, the
    /// field, and the set button.
    pub fn create_arm_current_control<M>(
        current_value: &str,
        arm_current: &Option<Result<u16, LumidoxError>>,
        max_current: &Option<Result<u16, LumidoxError>>,
        on_set_current: M,
    ) -> (c: ArmCurrentControl<M>)
        ensures
            Self::control_shows(c, current_value@, *arm_current, *max_current, on_set_current),
    {
        ArmCurrentControl {
            heading: copy_text("ARM Current Setting"),
            current_text: reading_line("Current ARM: ", arm_current),
            max_text: reading_line("Max: ", max_current),
            input: copy_text(current_value),
            placeholder: copy_text("Enter ARM current (mA)"),
            set_label: copy_text("Set ARM Current"),
            on_set: on_set_current,
        }
    }

    /// The feedback for a typed current: a given validation message first;
    /// else a prompt for an empty field; else whether the current reads as a
    /// number, can be checked against the device, is within its maximum and
    /// is nonzero.
    pub open spec fn feedback(
        value: Seq<char>,
        message: Option<Seq<char>>,
        max: Option<Result<u16, LumidoxError>>,
    ) -> (Seq<char>, Tone) {
        match message {
            Some(m) => (m, Tone::Danger),
            None => if value.len() == 0 {
                ("Enter a current value"@, Tone::Neutral)
            } else {
                match parse_unsigned(value, 65535) {
                    None => ("Invalid number format"@, Tone::Danger),
                    Some(v) => match max {
                        None => ("Cannot validate - no device"@, Tone::Neutral),
                        Some(Err(_)) => ("Cannot validate - device error"@, Tone::Caution),
                        Some(Ok(m)) => if v > m {
                            ("Current too high (max: "@ + decimal(m as nat) + "mA)"@, Tone::Danger)
                        } else if v == 0 {
                            ("Current cannot be zero"@, Tone::Danger)
                        } else {
                            ("Valid current value"@, Tone::Success)
                        },
                    },
                }
            },
        }
    }

    /// Whether the feedback for a typed current needs the device's maximum
    /// current: only without a given message, for a text that reads as a
    /// number.
    pub open spec fn feedback_needs_reading(value: Seq<char>, message: Option<Seq<char>>) -> bool {
        message is None && parse_unsigned(value, 65535) is Some
    }

    /// Whether the feedback for this field needs the device's maximum
    /// current. The device is read only then; otherwise the reading passed
    /// to the feedback does not matter.
    pub fn needs_max_current(current_value: &str, validation_message: Option<&str>) -> (r: bool)
        ensures
            r == Self::feedback_needs_reading(current_value@, Self::text_view(validation_message)),
    {
        validation_message.is_none() && parse_u16_text(current_value).is_some()
    }

    /// The view of an optional borrowed text.
    pub open spec fn text_view(t: Option<&str>) -> Option<Seq<char>> {
        match t {
            Some(s) => Some(s@),
            None => None,
        }
    }

    /// The feedback for a typed current. The maximum current reading is used
    /// only when `needs_max_current` says so.
    pub fn create_validation_display(
        current_value: &str,
        validation_message: Option<&str>,
        max_current: &Option<Result<u16, LumidoxError>>,
    ) -> (b: Badge)
        ensures
            badge_is(
                b,
                Self::feedback(current_value@, Self::text_view(validation_message), *max_current).0,
                Self::feedback(current_value@, Self::text_view(validation_message), *max_current).1,
            ),
            !Self::feedback_needs_reading(current_value@, Self::text_view(validation_message))
                ==> Self::feedback(current_value@, Self::text_view(validation_message), *max_current)
                == Self::feedback(current_value@, Self::text_view(validation_message), None),
    {
        match validation_message {
            Some(m) => {
                return badge(m, Tone::Danger);
            },
            None => {},
        }
        if text_is_empty(current_value) {
            return badge("Enter a current value", Tone::Neutral);
        }
        match parse_u16_text(current_value) {
            None => badge("Invalid number format", Tone::Danger),
            Some(v) => match max_current {
                None => badge("Cannot validate - no device", Tone::Neutral),
                Some(Err(_)) => badge("Cannot validate - device error", Tone::Caution),
                Some(Ok(m)) => {
                    if v > *m {
                        Badge {
                            text: text_with_number("Current too high (max: ", *m as u64, "mA)"),
                            tone: Tone::Danger,
                        }
                    } else if v == 0 {
                        badge("Current cannot be zero", Tone::Danger)
                    } else {
                        badge("Valid current value", Tone::Success)
                    }
                },
            },
        }
    }

    /// Whether an ARM current panel shows this field, message and readings.
    pub open spec fn section_shows<M>(
        s: CurrentSection<M>,
        value: Seq<char>,
        message: Option<&str>,
        r: DeviceReadings,
        on_set: M,
    ) -> bool {
        &&& s.title@ == "Current Controls"@
        &&& Self::control_shows(s.control, value, r.arm_current, r.max_current, on_set)
        &&& badge_is(
            s.validation,
            Self::feedback(value, Self::text_view(message), r.max_current).0,
            Self::feedback(value, Self::text_view(message), r.max_current).1,
        )
    }

    /// The ARM current panel: the control and its feedback.
    pub fn create_current_section<M>(
        current_value: &str,
        validation_message: Option<&str>,
        readings: &DeviceReadings,
        on_set_current: M,
    ) -> (s: CurrentSection<M>)
        ensures
            Self::section_shows(s, current_value@, validation_message, *readings, on_set_current),
    {
        CurrentSection {
            title: copy_text("Current Controls"),
            control: Self::create_arm_current_control(
                current_value,
                &readings.arm_current,
                &readings.max_current,
                on_set_current,
            ),
            validation: Self::create_validation_display(
                current_value,
                validation_message,
                &readings.max_current,
            ),
        }
    }
}

} // verus!
