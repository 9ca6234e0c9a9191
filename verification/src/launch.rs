//! Starting the controller window: the launch configurations, the first
//! state and message, the display check, and the window system's errors and
//! description. Reading the environment and running the window stay outside.

use vstd::prelude::*;
use vstd::string::*;

use crate::error::LumidoxError;
use crate::gui::{AppState, Message};
use crate::text::{copy_text, join2};

verus! {

/// How to launch the controller window.
#[derive(Debug)]
pub struct GuiLaunch {
    /// Port to connect to, if one was named.
    pub port_name: Option<String>,
    /// Whether to search for the device's port.
    pub auto_detect: bool,
    /// Whether device operations report verbosely.
    pub verbose: bool,
    /// Whether stage transitions are optimized.
    pub optimize_transitions: bool,
}

/// The launch with this configuration.
pub open spec fn launch_of(
    port_name: Option<String>,
    auto_detect: bool,
    verbose: bool,
    optimize_transitions: bool,
) -> GuiLaunch {
    GuiLaunch { port_name, auto_detect, verbose, optimize_transitions }
}

impl GuiLaunch {
    /// The launch with this configuration: the port to connect to, whether
    /// to detect it, whether to report verbosely, whether to optimize stage
    /// transitions.
    pub fn new(
        port_name: Option<String>,
        auto_detect: bool,
        verbose: bool,
        optimize_transitions: bool,
    ) -> (l: GuiLaunch)
        ensures
            l == launch_of(port_name, auto_detect, verbose, optimize_transitions),
    {
        GuiLaunch { port_name, auto_detect, verbose, optimize_transitions }
    }

    /// Whether a window started by this launch begins in `s` with the
    /// message `first`: the fresh state with the launch's configuration, and
    /// `Connect` when the port is to be detected.
    pub open spec fn begins(self, s: AppState, first: Option<Message>) -> bool {
        &&& s.is_fresh()
        &&& s.port_name == self.port_name
        &&& s.auto_detect == self.auto_detect
        &&& s.verbose == self.verbose
        &&& s.optimize_transitions == self.optimize_transitions
        &&& first == if self.auto_detect {
            Some(Message::Connect)
        } else {
            None
        }
    }

    /// The first state of the window and the message it starts with: the
    /// fresh state with this configuration, and `Connect` when the port is to
    /// be detected.
    pub fn start(self) -> (r: (AppState, Option<Message>))
        ensures
            self.begins(r.0, r.1),
    {
        let mut state = AppState::default();
        state.port_name = self.port_name;
        state.auto_detect = self.auto_detect;
        state.verbose = self.verbose;
        state.optimize_transitions = self.optimize_transitions;
        let first = if self.auto_detect {
            Some(Message::Connect)
        } else {
            None
        };
        (state, first)
    }
}

/// The launch with default settings, the same as launching with no port,
/// detection on, verbose off and optimized transitions on.
pub fn run_gui_default() -> (l: GuiLaunch)
    ensures
        l == launch_of(None, true, false, true),
        l.port_name is None,
        l.auto_detect,
        !l.verbose,
        l.optimize_transitions,
{
    GuiLaunch::new(None, true, false, true)
}

/// The launch on a named port, the same as launching with that port,
/// detection off, verbose off and optimized transitions on.
pub fn run_gui_with_port(port_name: String) -> (l: GuiLaunch)
    ensures
        l == launch_of(Some(port_name), false, false, true),
        l.port_name == Some(port_name),
        !l.auto_detect,
        !l.verbose,
        l.optimize_transitions,
{
    GuiLaunch::new(Some(port_name), false, false, true)
}

/// The verbose launch, the same as launching with the given port and
/// detection, verbose on and optimized transitions on.
pub fn run_gui_verbose(port_name: Option<String>, auto_detect: bool) -> (l: GuiLaunch)
    ensures
        l == launch_of(port_name, auto_detect, true, true),
        l.port_name == port_name,
        l.auto_detect == auto_detect,
        l.verbose,
        l.optimize_transitions,
{
    GuiLaunch::new(port_name, auto_detect, true, true)
}

/// Whether a display is there for the window: on Unix the window needs the
/// `DISPLAY` or the `WAYLAND_DISPLAY` variable set; elsewhere it always can.
pub fn check_gui_compatibility(display_set: bool, wayland_display_set: bool, unix: bool) -> (r: Result<(), LumidoxError>)
    ensures
        r is Ok <==> (display_set || wayland_display_set || !unix),
        r matches Err(e) ==> (e matches LumidoxError::SystemError(m) && m@
            == "No display server detected. GUI requires X11 or Wayland."@),
{
    if !display_set && !wayland_display_set && unix {
        return Err(
            LumidoxError::SystemError(
                copy_text("No display server detected. GUI requires X11 or Wayland."),
            ),
        );
    }
    Ok(())
}

/// Prepares the window system: the display check is all it needs.
pub fn initialize_gui(display_set: bool, wayland_display_set: bool, unix: bool) -> (r: Result<(), LumidoxError>)
    ensures
        r is Ok <==> (display_set || wayland_display_set || !unix),
        r matches Err(e) ==> (e matches LumidoxError::SystemError(m) && m@
            == "No display server detected. GUI requires X11 or Wayland."@),
{
    check_gui_compatibility(display_set, wayland_display_set, unix)?;
    Ok(())
}

/// Releases the window system: there is nothing to release.
pub fn cleanup_gui() -> (r: Result<(), LumidoxError>)
    ensures
        r is Ok,
{
    Ok(())
}

/// Checks that the window could run: the display check, then the settings
/// and the system description, which cannot fail.
pub fn test_gui(display_set: bool, wayland_display_set: bool, unix: bool) -> (r: Result<(), LumidoxError>)
    ensures
        r is Ok <==> (display_set || wayland_display_set || !unix),
        r matches Err(e) ==> (e matches LumidoxError::SystemError(m) && m@
            == "No display server detected. GUI requires X11 or Wayland."@),
{
    check_gui_compatibility(display_set, wayland_display_set, unix)?;
    Ok(())
}

/// What the window system is and can do.
#[derive(Debug, Clone)]
pub struct GuiSystemInfo {
    /// The window toolkit.
    pub backend: String,
    /// The application's version.
    pub version: String,
    /// The renderer.
    pub renderer: String,
    /// The operating system.
    pub platform: String,
    /// The processor architecture.
    pub architecture: String,
    /// Whether windows can be transparent.
    pub supports_transparency: bool,
    /// Whether windows have decorations.
    pub supports_decorations: bool,
    /// Whether windows can be resized.
    pub supports_resizing: bool,
}

/// The description of the window system: the Iced toolkit on wgpu, with
/// this version, platform and architecture, supporting transparency,
/// decorations and resizing.
pub fn get_gui_system_info(version: &str, platform: &str, architecture: &str) -> (i: GuiSystemInfo)
    ensures
        i.backend@ == "Iced"@,
        i.version@ == version@,
        i.renderer@ == "wgpu"@,
        i.platform@ == platform@,
        i.architecture@ == architecture@,
        i.supports_transparency,
        i.supports_decorations,
        i.supports_resizing,
{
    GuiSystemInfo {
        backend: copy_text("Iced"),
        version: copy_text(version),
        renderer: copy_text("wgpu"),
        platform: copy_text(platform),
        architecture: copy_text(architecture),
        supports_transparency: true,
        supports_decorations: true,
        supports_resizing: true,
    }
}

/// Errors of the window system.
#[derive(Debug, Clone)]
pub enum GuiError {
    /// The toolkit failed.
    IcedError(String),
    /// The graphics system failed.
    GraphicsError(String),
    /// The window system failed.
    WindowError(String),
    /// The configuration is wrong.
    ConfigError(String),
    /// The system cannot run the window.
    CompatibilityError(String),
}

impl GuiError {
    /// The text the error is shown with.
    pub open spec fn text(&self) -> Seq<char> {
        match self {
            GuiError::IcedError(m) => "Iced framework error: "@ + m@,
            GuiError::GraphicsError(m) => "Graphics system error: "@ + m@,
            GuiError::WindowError(m) => "Window system error: "@ + m@,
            GuiError::ConfigError(m) => "Configuration error: "@ + m@,
            GuiError::CompatibilityError(m) => "Compatibility error: "@ + m@,
        }
    }

    /// The text the error is shown with.
    pub fn to_display_string(&self) -> (s: String)
        ensures
            s@ == self.text(),
    {
        match self {
            GuiError::IcedError(m) => join2("Iced framework error: ", m.as_str()),
            GuiError::GraphicsError(m) => join2("Graphics system error: ", m.as_str()),
            GuiError::WindowError(m) => join2("Window system error: ", m.as_str()),
            GuiError::ConfigError(m) => join2("Configuration error: ", m.as_str()),
            GuiError::CompatibilityError(m) => join2("Compatibility error: ", m.as_str()),
        }
    }
}

} // verus!
