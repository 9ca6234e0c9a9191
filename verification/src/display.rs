//! The status, information and error panels. A device reading is passed as
//! an `Option`: `None` when there is no device, else what the device
//! answered. Numbers that the device reports as floating point arrive here
//! already written as text.

use vstd::prelude::*;
use vstd::string::*;

use crate::error::{DeviceMode, LumidoxError};
use crate::text::{copy_text, decimal, join2, number_then_text, text_with_number};
use crate::view::{badge, badge_is, row, row_is, Badge, Row, Tone};

verus! {

/// Status of the device: connection, mode and remote control.
pub struct StatusDisplay;

/// The remote control panel: the status and a line that explains it.
#[derive(Debug)]
pub struct RemoteModeDisplay {
    /// The status.
    pub status: Badge,
    /// What the status means.
    pub description: String,
}

/// The device status panel.
#[derive(Debug)]
pub struct DeviceStatus {
    /// The panel's title.
    pub title: String,
    /// Connected or not.
    pub connection: Badge,
    /// The device mode.
    pub mode: Badge,
    /// The remote control status.
    pub remote: RemoteModeDisplay,
}

impl StatusDisplay {
    /// Connected or not.
    pub fn create_connection_indicator(is_connected: bool) -> (b: Badge)
        ensures
            is_connected ==> badge_is(b, "CONNECTED"@, Tone::Success),
            !is_connected ==> badge_is(b, "DISCONNECTED"@, Tone::Danger),
    {
        if is_connected {
            badge("CONNECTED", Tone::Success)
        } else {
            badge("DISCONNECTED", Tone::Danger)
        }
    }

    /// The device mode as the mode line shows it.
    pub open spec fn mode_line(mode: Option<Result<DeviceMode, LumidoxError>>) -> (Seq<char>, Tone) {
        match mode {
            Some(Ok(DeviceMode::Local)) => ("Local Mode"@, Tone::Caution),
            Some(Ok(DeviceMode::Standby)) => ("Remote Standby"@, Tone::Ready),
            Some(Ok(DeviceMode::Armed)) => ("Armed"@, Tone::Armed),
            Some(Ok(DeviceMode::Remote)) => ("Remote Active"@, Tone::Success),
            Some(Err(_)) => ("Mode Unknown"@, Tone::Neutral),
            None => ("No Device"@, Tone::Neutral),
        }
    }

    /// The device mode.
    pub fn create_device_mode_display(mode: &Option<Result<DeviceMode, LumidoxError>>) -> (b: Badge)
        ensures
            badge_is(b, Self::mode_line(*mode).0, Self::mode_line(*mode).1),
    {
        match mode {
            Some(Ok(DeviceMode::Local)) => badge("Local Mode", Tone::Caution),
            Some(Ok(DeviceMode::Standby)) => badge("Remote Standby", Tone::Ready),
            Some(Ok(DeviceMode::Armed)) => badge("Armed", Tone::Armed),
            Some(Ok(DeviceMode::Remote)) => badge("Remote Active", Tone::Success),
            Some(Err(_)) => badge("Mode Unknown", Tone::Neutral),
            None => badge("No Device", Tone::Neutral),
        }
    }

    /// The remote control status, its explanation and its tone.
    pub open spec fn remote_line(mode: Option<Result<DeviceMode, LumidoxError>>) -> (Seq<char>, Seq<char>, Tone) {
        match mode {
            Some(Ok(DeviceMode::Local)) => (
                "Local Control"@,
                "Device controlled locally"@,
                Tone::Caution,
            ),
            Some(Ok(DeviceMode::Standby)) => (
                "Remote Standby"@,
                "Ready for remote commands"@,
                Tone::Ready,
            ),
            Some(Ok(DeviceMode::Armed)) => (
                "Armed State"@,
                "Device armed and ready to fire"@,
                Tone::Armed,
            ),
            Some(Ok(DeviceMode::Remote)) => (
                "Remote Active"@,
                "Remote control active"@,
                Tone::Success,
            ),
            Some(Err(_)) => ("Status Error"@, "Cannot read device status"@, Tone::Danger),
            None => ("No Device"@, "Device not connected"@, Tone::Neutral),
        }
    }

    /// Whether a remote control panel shows this mode.
    pub open spec fn remote_shows(r: RemoteModeDisplay, mode: Option<Result<DeviceMode, LumidoxError>>) -> bool {
        &&& badge_is(r.status, Self::remote_line(mode).0, Self::remote_line(mode).2)
        &&& r.description@ == Self::remote_line(mode).1
    }

    /// The remote control status.
    pub fn create_remote_mode_display(mode: &Option<Result<DeviceMode, LumidoxError>>) -> (r: RemoteModeDisplay)
        ensures
            Self::remote_shows(r, *mode),
    {
        let (status, description) = match mode {
            Some(Ok(DeviceMode::Local)) => (
                badge("Local Control", Tone::Caution),
                "Device controlled locally",
            ),
            Some(Ok(DeviceMode::Standby)) => (
                badge("Remote Standby", Tone::Ready),
                "Ready for remote commands",
            ),
            Some(Ok(DeviceMode::Armed)) => (
                badge("Armed State", Tone::Armed),
                "Device armed and ready to fire",
            ),
            Some(Ok(DeviceMode::Remote)) => (
                badge("Remote Active", Tone::Success),
                "Remote control active",
            ),
            Some(Err(_)) => (badge("Status Error", Tone::Danger), "Cannot read device status"),
            None => (badge("No Device", Tone::Neutral), "Device not connected"),
        };
        RemoteModeDisplay { status, description: copy_text(description) }
    }

    /// The state in one word, as the summary shows it.
    pub open spec fn summary(connected: bool, mode: Option<Result<DeviceMode, LumidoxError>>) -> (Seq<char>, Tone) {
        if !connected {
            ("DISCONNECTED"@, Tone::Danger)
        } else {
            match mode {
                Some(Ok(DeviceMode::Local)) => ("LOCAL"@, Tone::Caution),
                Some(Ok(DeviceMode::Standby)) => ("STANDBY"@, Tone::Ready),
                Some(Ok(DeviceMode::Armed)) => ("ARMED"@, Tone::Armed),
                Some(Ok(DeviceMode::Remote)) => ("REMOTE"@, Tone::Success),
                Some(Err(_)) => ("ERROR"@, Tone::Danger),
                None => ("NO DEVICE"@, Tone::Neutral),
            }
        }
    }

    /// The state in one word.
    pub fn create_status_summary(is_connected: bool, mode: &Option<Result<DeviceMode, LumidoxError>>) -> (b: Badge)
        ensures
            badge_is(b, Self::summary(is_connected, *mode).0, Self::summary(is_connected, *mode).1),
    {
        if !is_connected {
            return badge("DISCONNECTED", Tone::Danger);
        }
        match mode {
            Some(Ok(DeviceMode::Local)) => badge("LOCAL", Tone::Caution),
            Some(Ok(DeviceMode::Standby)) => badge("STANDBY", Tone::Ready),
            Some(Ok(DeviceMode::Armed)) => badge("ARMED", Tone::Armed),
            Some(Ok(DeviceMode::Remote)) => badge("REMOTE", Tone::Success),
            Some(Err(_)) => badge("ERROR", Tone::Danger),
            None => badge("NO DEVICE", Tone::Neutral),
        }
    }

    /// Whether a status panel shows this connection and mode.
    pub open spec fn status_shows(
        s: DeviceStatus,
        connected: bool,
        mode: Option<Result<DeviceMode, LumidoxError>>,
    ) -> bool {
        &&& s.title@ == "Device Status"@
        &&& (connected ==> badge_is(s.connection, "CONNECTED"@, Tone::Success))
        &&& (!connected ==> badge_is(s.connection, "DISCONNECTED"@, Tone::Danger))
        &&& badge_is(s.mode, Self::mode_line(mode).0, Self::mode_line(mode).1)
        &&& Self::remote_shows(s.remote, mode)
    }

    /// The status panel: connection, mode and remote control.
    pub fn create_device_status(is_connected: bool, mode: &Option<Result<DeviceMode, LumidoxError>>) -> (s: DeviceStatus)
        ensures
            Self::status_shows(s, is_connected, *mode),
    {
        DeviceStatus {
            title: copy_text("Device Status"),
            connection: Self::create_connection_indicator(is_connected),
            mode: Self::create_device_mode_display(mode),
            remote: Self::create_remote_mode_display(mode),
        }
    }
}

/// The device's parameters as it reports them; the voltages as text.
#[derive(Debug)]
pub struct DeviceParameters {
    /// The ARM current in milliamps.
    pub arm_current: u16,
    /// The voltages of stages 1 to 5, in order.
    pub voltages: Vec<String>,
}

/// What the device reports of its currents.
#[derive(Debug)]
pub struct CurrentReadings {
    /// The ARM current.
    pub arm_current: Result<u16, LumidoxError>,
    /// The fire current.
    pub fire_current: Result<u16, LumidoxError>,
    /// Whether the two are synchronized.
    pub synchronized: Result<bool, LumidoxError>,
}

/// What the device reports of a stage: its power line, and its irradiance
/// line or why it could not be computed.
#[derive(Debug)]
pub struct StageReading {
    /// Total and per-well power with their units.
    pub power: String,
    /// The irradiance.
    pub irradiance: Result<String, LumidoxError>,
}

/// What the information panel reads from the device; each field is `None`
/// when there is no device.
#[derive(Debug)]
pub struct InfoReadings {
    /// The parameters.
    pub parameters: Option<Result<DeviceParameters, LumidoxError>>,
    /// The currents.
    pub currents: Option<CurrentReadings>,
    /// Stages 1 to 5, in order.
    pub stages: Option<Vec<Result<StageReading, LumidoxError>>>,
}

/// The body of an information section.
#[derive(Debug)]
pub enum InfoContent {
    /// Label/value rows.
    Rows(Vec<Row>),
    /// The device failed to answer.
    Failed { heading: String, detail: String },
}

/// The current settings as the device reports them.
#[derive(Debug)]
pub struct CurrentSettings {
    /// The ARM current row.
    pub arm: Row,
    /// The fire current row.
    pub fire: Row,
    /// Whether the currents are synchronized.
    pub sync: Badge,
}

/// One stage's line in the stage section.
#[derive(Debug)]
pub struct StageLine {
    /// `Stage <n>:`.
    pub label: String,
    /// The power, or why it is missing.
    pub value: String,
    /// The irradiance line, when the power was read.
    pub irradiance: Option<String>,
}

/// What a titled information section shows.
#[derive(Debug)]
pub enum SectionBody<T> {
    /// What the device reported.
    Shown(T),
    /// That there is no device, as text.
    NoDevice(String),
}

/// A titled information section.
#[derive(Debug)]
pub struct InfoSection<T> {
    /// The section's title.
    pub title: String,
    /// What it shows.
    pub body: SectionBody<T>,
}

/// Whether a section body says that no device is connected.
pub open spec fn says_no_device<T>(b: SectionBody<T>) -> bool {
    b matches SectionBody::NoDevice(t) && t@ == "No Device Connected"@
}

/// The information panel.
#[derive(Debug)]
pub struct DeviceInfoPanel {
    /// The panel's title.
    pub title: String,
    /// The parameters.
    pub parameters: InfoSection<InfoContent>,
    /// The current settings.
    pub currents: InfoSection<CurrentSettings>,
    /// The stages.
    pub stages: InfoSection<Vec<StageLine>>,
}

/// Device information: parameters, current settings and stages.
pub struct InfoDisplay;

impl InfoDisplay {
    /// Whether the rows show the ARM current and the five voltages.
    pub open spec fn parameter_rows(r: Seq<Row>, p: DeviceParameters) -> bool {
        &&& r.len() == 6
        &&& row_is(r[0], "ARM Current:"@, decimal(p.arm_current as nat) + "mA"@)
        &&& forall|i: int|
            1 <= i < 6 ==> row_is(
                #[trigger] r[i],
                "Voltage "@ + decimal(i as nat) + ":"@,
                p.voltages@[i - 1]@ + "V"@,
            )
    }

    /// Whether the parameter section shows this reading.
    pub open spec fn parameters_show(
        s: InfoSection<InfoContent>,
        reading: Option<Result<DeviceParameters, LumidoxError>>,
    ) -> bool {
        &&& s.title@ == "Device Parameters"@
        &&& match reading {
            None => says_no_device(s.body),
            Some(Err(e)) => s.body matches SectionBody::Shown(InfoContent::Failed { heading, detail })
                && heading@ == "Parameter Error"@ && detail@ == "Failed to read parameters: "@
                + e.text(),
            Some(Ok(p)) => s.body matches SectionBody::Shown(InfoContent::Rows(r)) && Self::parameter_rows(
                r@,
                p,
            ),
        }
    }

    /// The parameter section: the ARM current and the five voltages, the
    /// failure, or that no device is connected.
    pub fn create_device_parameters_display(parameters: &Option<Result<DeviceParameters, LumidoxError>>) -> (s: InfoSection<InfoContent>)
        requires
            parameters matches Some(Ok(p)) ==> p.voltages@.len() == 5,
        ensures
            Self::parameters_show(s, *parameters),
    {
        let body = match parameters {
            None => SectionBody::NoDevice(copy_text("No Device Connected")),
            Some(Err(e)) => {
                let text = e.to_display_string();
                SectionBody::Shown(
                    InfoContent::Failed {
                        heading: copy_text("Parameter Error"),
                        detail: join2("Failed to read parameters: ", text.as_str()),
                    },
                )
            },
            Some(Ok(p)) => {
                let mut rows: Vec<Row> = Vec::new();
                rows.push(row("ARM Current:", number_then_text(p.arm_current as u64, "mA")));
                let mut k: usize = 0;
                while k < 5
                    invariant
                        0 <= k <= 5,
                        p.voltages@.len() == 5,
                        rows@.len() == k + 1,
                        row_is(rows@[0], "ARM Current:"@, decimal(p.arm_current as nat) + "mA"@),
                        forall|i: int|
                            1 <= i < k + 1 ==> row_is(
                                #[trigger] rows@[i],
                                "Voltage "@ + decimal(i as nat) + ":"@,
                                p.voltages@[i - 1]@ + "V"@,
                            ),
                    decreases 5 - k,
                {
                    let label = text_with_number("Voltage ", (k + 1) as u64, ":");
                    let value = p.voltages[k].clone().concat("V");
                    rows.push(Row { label, value });
                    k = k + 1;
                }
                SectionBody::Shown(InfoContent::Rows(rows))
            },
        };
        InfoSection { title: copy_text("Device Parameters"), body }
    }

    /// A current as the settings show it: in milliamps, or `Error`.
    pub open spec fn current_value(r: Result<u16, LumidoxError>) -> Seq<char> {
        match r {
            Ok(n) => decimal(n as nat) + "mA"@,
            Err(_) => "Error"@,
        }
    }

    /// Whether the currents are synchronized, as the settings show it.
    pub open spec fn sync_line(r: Result<bool, LumidoxError>) -> (Seq<char>, Tone) {
        match r {
            Ok(true) => ("Synchronized"@, Tone::Success),
            Ok(false) => ("Not Synchronized"@, Tone::Caution),
            Err(_) => ("Unknown"@, Tone::Danger),
        }
    }

    /// Whether the current settings section shows these readings.
    pub open spec fn currents_show(s: InfoSection<CurrentSettings>, reading: Option<CurrentReadings>) -> bool {
        &&& s.title@ == "Current Settings"@
        &&& match reading {
            None => says_no_device(s.body),
            Some(c) => (s.body matches SectionBody::Shown(b) && row_is(
                b.arm,
                "ARM Current:"@,
                Self::current_value(c.arm_current),
            ) && row_is(b.fire, "Fire Current:"@, Self::current_value(c.fire_current)) && badge_is(
                b.sync,
                Self::sync_line(c.synchronized).0,
                Self::sync_line(c.synchronized).1,
            )),
        }
    }

    /// A current as the settings show it.
    fn current_value_text(r: &Result<u16, LumidoxError>) -> (s: String)
        ensures
            s@ == Self::current_value(*r),
    {
        match r {
            Ok(n) => number_then_text(*n as u64, "mA"),
            Err(_) => copy_text("Error"),
        }
    }

    /// The current settings section: the ARM and fire currents and whether
    /// they are synchronized; or that no device is connected.
    pub fn create_current_settings_display(currents: &Option<CurrentReadings>) -> (s: InfoSection<CurrentSettings>)
        ensures
            Self::currents_show(s, *currents),
    {
        let body = match currents {
            None => SectionBody::NoDevice(copy_text("No Device Connected")),
            Some(c) => {
                let sync = match &c.synchronized {
                    Ok(true) => badge("Synchronized", Tone::Success),
                    Ok(false) => badge("Not Synchronized", Tone::Caution),
                    Err(_) => badge("Unknown", Tone::Danger),
                };
                SectionBody::Shown(
                    CurrentSettings {
                        arm: row("ARM Current:", Self::current_value_text(&c.arm_current)),
                        fire: row("Fire Current:", Self::current_value_text(&c.fire_current)),
                        sync,
                    },
                )
            },
        };
        InfoSection { title: copy_text("Current Settings"), body }
    }

    /// Whether a stage line shows this stage's reading.
    pub open spec fn stage_line_shows(l: StageLine, stage: nat, r: Result<StageReading, LumidoxError>) -> bool {
        &&& l.label@ == "Stage "@ + decimal(stage) + ":"@
        &&& match r {
            Ok(s) => l.value@ == s.power@ && (l.irradiance matches Some(t) && t@ == match s.irradiance {
                Ok(i) => i@,
                Err(_) => "Error calculating irradiance"@,
            }),
            Err(_) => l.value@ == "Error reading stage data"@ && l.irradiance is None,
        }
    }

    /// Whether the stage section shows these readings.
    pub open spec fn stages_show(
        s: InfoSection<Vec<StageLine>>,
        reading: Option<Vec<Result<StageReading, LumidoxError>>>,
    ) -> bool {
        &&& s.title@ == "Stage Information"@
        &&& match reading {
            None => says_no_device(s.body),
            Some(v) => (s.body matches SectionBody::Shown(lines) && lines@.len() == 5 && forall|i: int|
                0 <= i < 5 ==> Self::stage_line_shows(
                    #[trigger] lines@[i],
                    (i + 1) as nat,
                    v@[i],
                )),
        }
    }

    /// The stage section: each stage's power and irradiance, or why they
    /// are missing; or that no device is connected.
    pub fn create_stage_information_display(stages: &Option<Vec<Result<StageReading, LumidoxError>>>) -> (s: InfoSection<Vec<StageLine>>)
        requires
            stages matches Some(v) ==> v@.len() == 5,
        ensures
            Self::stages_show(s, *stages),
    {
        let body = match stages {
            None => SectionBody::NoDevice(copy_text("No Device Connected")),
            Some(v) => {
                let mut lines: Vec<StageLine> = Vec::new();
                let mut k: usize = 0;
                while k < 5
                    invariant
                        0 <= k <= 5,
                        v@.len() == 5,
                        lines@.len() == k,
                        forall|i: int|
                            0 <= i < k ==> Self::stage_line_shows(
                                #[trigger] lines@[i],
                                (i + 1) as nat,
                                v@[i],
                            ),
                    decreases 5 - k,
                {
                    let label = text_with_number("Stage ", (k + 1) as u64, ":");
                    let line = match &v[k] {
                        Ok(reading) => {
                            let irradiance = match &reading.irradiance {
                                Ok(t) => t.clone(),
                                Err(_) => copy_text("Error calculating irradiance"),
                            };
                            StageLine { label, value: reading.power.clone(), irradiance: Some(irradiance) }
                        },
                        Err(_) => StageLine {
                            label,
                            value: copy_text("Error reading stage data"),
                            irradiance: None,
                        },
                    };
                    lines.push(line);
                    k = k + 1;
                }
                SectionBody::Shown(lines)
            },
        };
        InfoSection { title: copy_text("Stage Information"), body }
    }

    /// Whether the information panel shows these readings.
    pub open spec fn info_shows(p: DeviceInfoPanel, r: InfoReadings) -> bool {
        &&& p.title@ == "Device Information"@
        &&& Self::parameters_show(p.parameters, r.parameters)
        &&& Self::currents_show(p.currents, r.currents)
        &&& Self::stages_show(p.stages, r.stages)
    }

    /// Whether readings are complete: five voltages and five stages.
    pub open spec fn readings_complete(r: InfoReadings) -> bool {
        &&& r.parameters matches Some(Ok(p)) ==> p.voltages@.len() == 5
        &&& r.stages matches Some(v) ==> v@.len() == 5
    }

    /// The information panel: parameters, current settings and stages.
    pub fn create_device_info(readings: &InfoReadings) -> (p: DeviceInfoPanel)
        requires
            Self::readings_complete(*readings),
        ensures
            Self::info_shows(p, *readings),
    {
        DeviceInfoPanel {
            title: copy_text("Device Information"),
            parameters: Self::create_device_parameters_display(&readings.parameters),
            currents: Self::create_current_settings_display(&readings.currents),
            stages: Self::create_stage_information_display(&readings.stages),
        }
    }
}

} // verus!
