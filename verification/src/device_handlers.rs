//! Device operation handlers: the results that device operations produce,
//! built from what the device answered.

use vstd::prelude::*;
use vstd::string::*;

use crate::device_messages::DeviceOperationResult;
use crate::error::{DeviceInfo, DeviceMode, LumidoxError};
use crate::text::{copy_text, decimal, join2, number_then_text, text_then_number, text_with_number};

verus! {

/// Texts joined with a separator between each two.
pub open spec fn joined(items: Seq<Seq<char>>, sep: Seq<char>) -> Seq<char>
    decreases items.len(),
{
    if items.len() == 0 {
        Seq::empty()
    } else if items.len() == 1 {
        items[0]
    } else {
        joined(items.drop_last(), sep) + sep + items.last()
    }
}

/// The line a stage's reading gets: `Stage <n>: <text>`, stages counted from 1.
pub open spec fn stage_line(index: int, text: Seq<char>) -> Seq<char> {
    "Stage "@ + decimal((index + 1) as nat) + ": "@ + text
}

/// The text of a stage reading: the reading's text, or the error's text.
pub open spec fn reading_text(r: Result<String, LumidoxError>) -> Seq<char> {
    match r {
        Ok(t) => t@,
        Err(e) => e.text(),
    }
}

/// The lines of the readings that satisfy `ok` (the successful ones, or the
/// failed ones), in stage order.
pub open spec fn reading_lines(readings: Seq<Result<String, LumidoxError>>, ok: bool) -> Seq<Seq<char>>
    decreases readings.len(),
{
    if readings.len() == 0 {
        Seq::empty()
    } else {
        let rest = reading_lines(readings.drop_last(), ok);
        let i = readings.len() - 1;
        if (readings.last() is Ok) == ok {
            rest.push(stage_line(i, reading_text(readings.last())))
        } else {
            rest
        }
    }
}

/// Whether an optional text holds exactly the optional characters.
pub open spec fn text_opt(t: Option<String>, v: Option<Seq<char>>) -> bool {
    match (t, v) {
        (Some(s), Some(c)) => s@ == c,
        (None, None) => true,
        _ => false,
    }
}

/// The error text a device operation result carries: the device error's text,
/// or `Device not connected` when there was no device.
pub open spec fn outcome_error<T>(outcome: Option<Result<T, LumidoxError>>) -> Option<Seq<char>> {
    match outcome {
        None => Some("Device not connected"@),
        Some(Ok(_)) => None,
        Some(Err(e)) => Some(e.text()),
    }
}

/// The error text of a device operation's outcome.
fn outcome_error_text<T>(outcome: &Option<Result<T, LumidoxError>>) -> (r: Option<String>)
    ensures
        text_opt(r, outcome_error(*outcome)),
{
    match outcome {
        None => Some(copy_text("Device not connected")),
        Some(Ok(_)) => None,
        Some(Err(e)) => Some(e.to_display_string()),
    }
}

/// A connected device: the port it answered on and, when it could be read,
/// its identification.
#[derive(Debug)]
pub struct ConnectedDevice {
    /// The port name the device is on.
    pub port_name: String,
    /// The device's identification, when it could be read.
    pub device_info: Option<DeviceInfo>,
}

/// Device operation handlers.
pub struct DeviceHandlers;

impl DeviceHandlers {
    /// The port to open a connection on: with auto-detection, the given port
    /// (or none, to search); without it, the given port, which is then required.
    pub fn connection_port(port_name: Option<String>, auto_detect: bool) -> (r: Result<
        Option<String>,
        LumidoxError,
    >)
        ensures
            (auto_detect || port_name is Some) ==> r == Ok::<Option<String>, LumidoxError>(
                port_name,
            ),
            (!auto_detect && port_name is None) ==> (r matches Err(e) && e is InvalidInput
                && e.message() == "Port name required when auto-detection is disabled"@),
    {
        if auto_detect {
            Ok(port_name)
        } else {
            match port_name {
                Some(port) => Ok(Some(port)),
                None => Err(
                    LumidoxError::InvalidInput(
                        copy_text("Port name required when auto-detection is disabled"),
                    ),
                ),
            }
        }
    }

    /// The result of a connection attempt.
    pub fn handle_connect(attempt: Result<ConnectedDevice, LumidoxError>) -> (r:
        DeviceOperationResult)
        ensures
            attempt matches Ok(d) ==> r == (DeviceOperationResult::ConnectionResult {
                success: true,
                port_name: Some(d.port_name),
                device_info: d.device_info,
                error: None,
            }),
            attempt matches Err(e) ==> (r matches DeviceOperationResult::ConnectionResult {
                success,
                port_name,
                device_info,
                error,
            } && !success && port_name is None && device_info is None && (error matches Some(t)
                && t@ == e.text())),
    {
        match attempt {
            Ok(device) => DeviceOperationResult::ConnectionResult {
                success: true,
                port_name: Some(device.port_name),
                device_info: device.device_info,
                error: None,
            },
            Err(error) => DeviceOperationResult::ConnectionResult {
                success: false,
                port_name: None,
                device_info: None,
                error: Some(error.to_display_string()),
            },
        }
    }

    /// The result of a disconnection, which always succeeds.
    pub fn handle_disconnect() -> (r: DeviceOperationResult)
        ensures
            r matches DeviceOperationResult::GeneralResult { success, operation, message, error }
                && success && operation@ == "Disconnect"@ && error is None && (message matches Some(m)
                && m@ == "Device disconnected successfully"@),
    {
        DeviceOperationResult::GeneralResult {
            success: true,
            operation: copy_text("Disconnect"),
            message: Some(copy_text("Device disconnected successfully")),
            error: None,
        }
    }

    /// The result of firing a stage. `outcome` is `None` without a device, and
    /// otherwise the firing's outcome: the current it fired with, when known.
    pub fn handle_fire_stage(stage: u8, outcome: Option<Result<Option<u16>, LumidoxError>>) -> (r:
        DeviceOperationResult)
        ensures
            r matches DeviceOperationResult::FiringResult { success, operation, error } && {
                &&& success == (outcome matches Some(Ok(_)))
                &&& operation@ == match outcome {
                    Some(Ok(Some(c))) => "Fire Stage "@ + decimal(stage as nat) + " ("@ + decimal(
                        c as nat,
                    ) + "mA)"@,
                    _ => "Fire Stage "@ + decimal(stage as nat),
                }
                &&& text_opt(error, outcome_error(outcome))
            },
    {
        let error = outcome_error_text(&outcome);
        match outcome {
            Some(Ok(current)) => {
                let base = text_then_number("Fire Stage ", stage as u64);
                let operation = match current {
                    Some(c) => {
                        let extra = text_with_number(" (", c as u64, "mA)");
                        base.concat(extra.as_str())
                    },
                    None => base,
                };
                DeviceOperationResult::FiringResult { success: true, operation, error }
            },
            _ => DeviceOperationResult::FiringResult {
                success: false,
                operation: text_then_number("Fire Stage ", stage as u64),
                error,
            },
        }
    }

    /// The result of firing with a custom current. `outcome` is `None` without
    /// a device.
    pub fn handle_fire_custom(current: u16, outcome: Option<Result<(), LumidoxError>>) -> (r:
        DeviceOperationResult)
        ensures
            r matches DeviceOperationResult::FiringResult { success, operation, error } && {
                &&& success == (outcome matches Some(Ok(_)))
                &&& operation@ == "Fire with "@ + decimal(current as nat) + "mA"@
                &&& text_opt(error, outcome_error(outcome))
            },
    {
        let error = outcome_error_text(&outcome);
        let success = match outcome {
            Some(Ok(_)) => true,
            _ => false,
        };
        DeviceOperationResult::FiringResult {
            success,
            operation: text_with_number("Fire with ", current as u64, "mA"),
            error,
        }
    }

    /// The result of setting the ARM current. `outcome` is `None` without a
    /// device. A success carries the value `<current>mA`.
    pub fn handle_set_arm_current(current: u16, outcome: Option<Result<(), LumidoxError>>) -> (r:
        DeviceOperationResult)
        ensures
            r matches DeviceOperationResult::ParameterResult {
                success,
                parameter_name,
                value,
                error,
            } && {
                &&& success == (outcome matches Some(Ok(_)))
                &&& parameter_name@ == "ARM Current"@
                &&& success ==> (value matches Some(v) && v@ == decimal(current as nat) + "mA"@)
                &&& !success ==> value is None
                &&& text_opt(error, outcome_error(outcome))
            },
    {
        let error = outcome_error_text(&outcome);
        match outcome {
            Some(Ok(_)) => DeviceOperationResult::ParameterResult {
                success: true,
                parameter_name: copy_text("ARM Current"),
                value: Some(number_then_text(current as u64, "mA")),
                error,
            },
            _ => DeviceOperationResult::ParameterResult {
                success: false,
                parameter_name: copy_text("ARM Current"),
                value: None,
                error,
            },
        }
    }

    /// The result of arming the device. `outcome` is `None` without a device.
    pub fn handle_arm_device(outcome: Option<Result<(), LumidoxError>>) -> (r: DeviceOperationResult)
        ensures
            r matches DeviceOperationResult::GeneralResult { success, operation, message, error }
                && {
                &&& success == (outcome matches Some(Ok(_)))
                &&& operation@ == "Arm Device"@
                &&& text_opt(
                    message,
                    if success {
                        Some("Device armed successfully"@)
                    } else {
                        None
                    },
                )
                &&& text_opt(error, outcome_error(outcome))
            },
    {
        let error = outcome_error_text(&outcome);
        match outcome {
            Some(Ok(_)) => DeviceOperationResult::GeneralResult {
                success: true,
                operation: copy_text("Arm Device"),
                message: Some(copy_text("Device armed successfully")),
                error,
            },
            _ => DeviceOperationResult::GeneralResult {
                success: false,
                operation: copy_text("Arm Device"),
                message: None,
                error,
            },
        }
    }

    /// The result of reading the device status. `readings` is `None` without a
    /// device, and otherwise holds the ARM current, FIRE current and remote mode
    /// that could be read.
    pub fn handle_read_device_status(
        readings: Option<(Option<u16>, Option<u16>, Option<DeviceMode>)>,
    ) -> (r: DeviceOperationResult)
        ensures
            readings matches Some(t) ==> r == (DeviceOperationResult::StatusResult {
                success: true,
                device_mode: t.2,
                arm_current: t.0,
                fire_current: t.1,
                error: None,
            }),
            readings is None ==> (r matches DeviceOperationResult::StatusResult {
                success,
                device_mode,
                arm_current,
                fire_current,
                error,
            } && !success && device_mode is None && arm_current is None && fire_current is None
                && (error matches Some(e) && e@ == "Device not connected"@)),
    {
        match readings {
            Some((arm_current, fire_current, remote_mode)) => DeviceOperationResult::StatusResult {
                success: true,
                device_mode: remote_mode,
                arm_current,
                fire_current,
                error: None,
            },
            None => DeviceOperationResult::StatusResult {
                success: false,
                device_mode: None,
                arm_current: None,
                fire_current: None,
                error: Some(copy_text("Device not connected")),
            },
        }
    }

    /// The result of reading the power of every stage. `readings` is `None`
    /// without a device, and otherwise holds each stage's reading in order,
    /// as text, or the error that reading it gave.
    pub fn handle_refresh_power_values(readings: Option<Vec<Result<String, LumidoxError>>>) -> (r:
        DeviceOperationResult)
        ensures
            r matches DeviceOperationResult::GeneralResult { success, operation, message, error }
                && {
                &&& operation@ == "Refresh Power Values"@
                &&& match readings {
                    None => !success && message is None && text_opt(
                        error,
                        Some("Device not connected"@),
                    ),
                    Some(v) => {
                        let failed = reading_lines(v@, false);
                        if failed.len() == 0 {
                            success && error is None && text_opt(
                                message,
                                Some(
                                    "Power values updated: "@ + joined(
                                        reading_lines(v@, true),
                                        ", "@,
                                    ),
                                ),
                            )
                        } else {
                            !success && message is None && text_opt(
                                error,
                                Some("Failed to read some stages: "@ + joined(failed, ", "@)),
                            )
                        }
                    },
                }
            },
    {
        match readings {
            None => DeviceOperationResult::GeneralResult {
                success: false,
                operation: copy_text("Refresh Power Values"),
                message: None,
                error: Some(copy_text("Device not connected")),
            },
            Some(v) => {
                let (good, bad, bad_count) = Self::power_lines(&v);
                if bad_count == 0 {
                    DeviceOperationResult::GeneralResult {
                        success: true,
                        operation: copy_text("Refresh Power Values"),
                        message: Some(join2("Power values updated: ", good.as_str())),
                        error: None,
                    }
                } else {
                    DeviceOperationResult::GeneralResult {
                        success: false,
                        operation: copy_text("Refresh Power Values"),
                        message: None,
                        error: Some(join2("Failed to read some stages: ", bad.as_str())),
                    }
                }
            },
        }
    }

    /// The joined lines of the successful and of the failed readings, and the
    /// number of failed ones.
    fn power_lines(v: &Vec<Result<String, LumidoxError>>) -> (r: (String, String, usize))
        ensures
            r.0@ == joined(reading_lines(v@, true), ", "@),
            r.1@ == joined(reading_lines(v@, false), ", "@),
            r.2 == reading_lines(v@, false).len(),
    {
        let mut good = String::new();
        let mut good_count: usize = 0;
        let mut bad = String::new();
        let mut bad_count: usize = 0;
        let mut i: usize = 0;
        let n = v.len();
        while i < n
            invariant
                n == v@.len(),
                i <= n,
                good@ == joined(reading_lines(v@.subrange(0, i as int), true), ", "@),
                bad@ == joined(reading_lines(v@.subrange(0, i as int), false), ", "@),
                good_count == reading_lines(v@.subrange(0, i as int), true).len(),
                bad_count == reading_lines(v@.subrange(0, i as int), false).len(),
                good_count <= i,
                bad_count <= i,
            decreases n - i,
        {
            let ghost prev = v@.subrange(0, i as int);
            let ghost next = v@.subrange(0, i + 1);
            proof {
                assert(next.drop_last() =~= prev);
                assert(next.last() == v@[i as int]);
            }
            let head = text_with_number("Stage ", (i as u64) + 1, ": ");
            match &v[i] {
                Ok(t) => {
                    let line = head.concat(t.as_str());
                    let ghost old_good = good@;
                    if good_count == 0 {
                        good = line;
                    } else {
                        good = good.concat(", ").concat(line.as_str());
                    }
                    good_count = good_count + 1;
                    proof {
                        lemma_joined_push(reading_lines(prev, true), line@, ", "@);
                    }
                },
                Err(e) => {
                    let et = e.to_display_string();
                    let line = head.concat(et.as_str());
                    if bad_count == 0 {
                        bad = line;
                    } else {
                        bad = bad.concat(", ").concat(line.as_str());
                    }
                    bad_count = bad_count + 1;
                    proof {
                        lemma_joined_push(reading_lines(prev, false), line@, ", "@);
                    }
                },
            }
            i = i + 1;
        }
        proof {
            assert(v@.subrange(0, n as int) =~= v@);
        }
        (good, bad, bad_count)
    }
}

/// Joining one more text.
pub proof fn lemma_joined_push(items: Seq<Seq<char>>, x: Seq<char>, sep: Seq<char>)
    ensures
        items.len() == 0 ==> joined(items.push(x), sep) == x,
        items.len() > 0 ==> joined(items.push(x), sep) == joined(items, sep) + sep + x,
{
    assert(items.push(x).drop_last() =~= items);
}

} // verus!
