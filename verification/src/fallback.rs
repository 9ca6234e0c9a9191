//! The entry point used when the controller is built without its window.

use vstd::prelude::*;
use vstd::string::*;

use crate::error::LumidoxError;
use crate::text::copy_text;

verus! {

/// Running the window without the window toolkit: always a configuration
/// error, so that the caller falls back to the command line.
pub fn run_gui(
    port_name: Option<String>,
    auto_detect: bool,
    verbose: bool,
    optimize_transitions: bool,
) -> (r: Result<(), LumidoxError>)
    ensures
        r matches Err(LumidoxError::ConfigError(m)) && m@
            == "GUI mode is not available. GUI dependencies not installed or feature not enabled."@,
{
    Err(
        LumidoxError::ConfigError(
            copy_text(
                "GUI mode is not available. GUI dependencies not installed or feature not enabled.",
            ),
        ),
    )
}

} // verus!
