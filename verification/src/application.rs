//! The application window around the unified state: its start, its updates
//! through the handler coordinator, its panels, and its shutdown. The device
//! itself is held outside, beside this value.

use vstd::prelude::*;
use vstd::string::*;

use crate::app_state::AppView;
use crate::device_messages::DeviceMessage;
use crate::error::LumidoxError;
use crate::factory::{
    ComponentFactory, CurrentPanel, DevicePanel, InfoPanelView, StagePanel, StatusPanel,
};
use crate::handlers::{HandlerCommand, HandlerCoordinator};
use crate::layout::{header_line, AppHeader, MainLayout};
use crate::messages::Message;
use crate::text::copy_text;
use crate::unified_state::{synced_at, synchronized, StateManager, UnifiedState};
use crate::view::Tone;

verus! {

/// The application window.
#[derive(Debug)]
pub struct LumidoxApplication {
    state: UnifiedState,
}

/// Everything the application window shows.
#[derive(Debug)]
pub struct ApplicationView {
    /// The header.
    pub header: AppHeader,
    /// Stage firing.
    pub stage_controls: StagePanel,
    /// Device control.
    pub device_controls: DevicePanel,
    /// ARM current.
    pub current_controls: CurrentPanel,
    /// Device status.
    pub status_display: StatusPanel,
    /// Device information.
    pub info_display: InfoPanelView,
}

/// Whether a state is the first state for a configuration.
pub open spec fn starts_with(
    s: UnifiedState,
    port_name: Option<String>,
    auto_detect: bool,
    verbose: bool,
    optimize_transitions: bool,
) -> bool {
    &&& s.device_state.is_initial()
    &&& s.device_state.port_name == port_name
    &&& s.device_state.auto_detect == auto_detect
    &&& s.device_state.verbose == verbose
    &&& s.device_state.optimize_transitions == optimize_transitions
    &&& s.app_state.current_view == AppView::Main
    &&& !s.app_state.busy
    &&& s.app_state.notifications.hidden()
}

impl LumidoxApplication {
    /// The application's state.
    pub closed spec fn state_of(&self) -> UnifiedState {
        self.state
    }

    /// A new window with this configuration, and the message it starts with:
    /// a connection with detection when the port is to be detected.
    pub fn new(
        port_name: Option<String>,
        auto_detect: bool,
        verbose: bool,
        optimize_transitions: bool,
    ) -> (r: (Self, Option<Message>))
        ensures
            starts_with(r.0.state_of(), port_name, auto_detect, verbose, optimize_transitions),
            r.1 == if auto_detect {
                Some(
                    Message::Device(
                        DeviceMessage::Connect {
                            port_name,
                            auto_detect: true,
                            verbose,
                            optimize_transitions,
                        },
                    ),
                )
            } else {
                None
            },
    {
        let state = UnifiedState::with_device_config(
            port_name.clone(),
            auto_detect,
            verbose,
            optimize_transitions,
        );
        let first = if auto_detect {
            Some(
                Message::Device(
                    DeviceMessage::Connect {
                        port_name,
                        auto_detect: true,
                        verbose,
                        optimize_transitions,
                    },
                ),
            )
        } else {
            None
        };
        (LumidoxApplication { state }, first)
    }

    /// A new window with this configuration, as `new`.
    pub fn with_config(
        port_name: Option<String>,
        auto_detect: bool,
        verbose: bool,
        optimize_transitions: bool,
    ) -> (r: (Self, Option<Message>))
        ensures
            starts_with(r.0.state_of(), port_name, auto_detect, verbose, optimize_transitions),
            r.1 == if auto_detect {
                Some(
                    Message::Device(
                        DeviceMessage::Connect {
                            port_name,
                            auto_detect: true,
                            verbose,
                            optimize_transitions,
                        },
                    ),
                )
            } else {
                None
            },
    {
        Self::new(port_name, auto_detect, verbose, optimize_transitions)
    }

    /// The window's title.
    pub fn title(&self) -> (s: String)
        ensures
            s@ == "Lumidox II Controller"@,
    {
        copy_text("Lumidox II Controller")
    }

    /// Processes a message through the handler coordinator.
    pub fn update(&mut self, message: Message) -> (r: HandlerCommand)
        ensures
            HandlerCoordinator::update_outcome(
                old(self).state_of(),
                final(self).state_of(),
                message,
                r,
            ),
    {
        HandlerCoordinator::update(&mut self.state, message)
    }

    /// Whether a view is everything the window shows for a state,
    /// `elapsed` milliseconds after the cache's last update.
    pub open spec fn view_shows(v: ApplicationView, s: UnifiedState, elapsed: nat) -> bool {
        &&& v.header.title@ == "Lumidox II Controller"@
        &&& v.header.status.text@ == header_line(s.connected(), s.device_info_display_at(elapsed))
        &&& v.header.status.tone == if s.connected() {
            Tone::Success
        } else {
            Tone::Danger
        }
        &&& ComponentFactory::stage_panel_shows(v.stage_controls)
        &&& ComponentFactory::device_panel_shows(v.device_controls, s)
        &&& v.current_controls.input@ == s.input_value("arm_current"@)
        &&& (v.current_controls.validation is Some
            <==> s.app_state.validation.arm_current_message is Some)
        &&& (v.current_controls.validation matches Some(m) ==> m@
            == s.app_state.validation.arm_current_message.unwrap()@)
        &&& v.current_controls.enabled == s.connected()
        &&& ComponentFactory::status_panel_shows(v.status_display, s, elapsed)
        &&& ComponentFactory::info_panel_shows(v.info_display, s, s.device_info_display_at(elapsed))
    }

    /// Everything the window shows `elapsed_ms` milliseconds after the
    /// cache's last update.
    pub fn view_at(&self, elapsed_ms: u128) -> (v: ApplicationView)
        ensures
            Self::view_shows(v, self.state_of(), elapsed_ms as nat),
    {
        let info = self.state.get_device_info_display_after(elapsed_ms);
        let header = match &info {
            Some(text) => MainLayout::create_app_header(
                self.state.is_device_connected(),
                Some(text.as_str()),
            ),
            None => MainLayout::create_app_header(self.state.is_device_connected(), None),
        };
        ApplicationView {
            header,
            stage_controls: ComponentFactory::create_stage_controls(&self.state),
            device_controls: ComponentFactory::create_device_controls(&self.state),
            current_controls: ComponentFactory::create_current_controls(&self.state),
            status_display: ComponentFactory::create_status_display_at(&self.state, elapsed_ms),
            info_display: ComponentFactory::create_info_display_at(&self.state, elapsed_ms),
        }
    }

    /// Everything the window shows, with the cache's validity read from the
    /// clock once.
    pub fn view(&self) -> (v: ApplicationView)
        ensures
            exists|e: nat| Self::view_shows(v, self.state_of(), e),
            !self.state_of().connected() ==> v.header.status.text@ == "Disconnected"@,
    {
        let e = self.state.device_state.cached_parameters.age_ms();
        let v = self.view_at(e);
        assert(Self::view_shows(v, self.state_of(), e as nat));
        v
    }

    /// The state.
    pub fn get_state(&self) -> (s: &UnifiedState)
        ensures
            *s == self.state_of(),
    {
        &self.state
    }

    /// The state, to change.
    pub fn get_state_mut(&mut self) -> (s: &mut UnifiedState)
        ensures
            *s == old(self).state_of(),
            final(self).state_of() == *final(s),
    {
        &mut self.state
    }

    /// Whether the device is connected.
    pub fn is_device_connected(&self) -> (r: bool)
        ensures
            r == self.state_of().connected(),
    {
        self.state.is_device_connected()
    }

    /// Whether the application or the device is busy.
    pub fn is_busy(&self) -> (r: bool)
        ensures
            r == self.state_of().busy(),
    {
        self.state.is_busy()
    }

    /// The current view.
    pub fn get_current_view(&self) -> (v: AppView)
        ensures
            v == self.state_of().app_state.current_view,
    {
        self.state.app_state.current_view
    }

    /// Checks the state's consistency, which always holds.
    pub fn validate_state(&self) -> (r: Result<(), LumidoxError>)
        ensures
            r is Ok,
    {
        StateManager::validate_state_consistency(&self.state)
    }

    /// Synchronizes the state with the device held beside it, if any,
    /// `elapsed_ms` milliseconds after the cache's last update. Never fails.
    pub fn synchronize_with_device_after(&mut self, device_present: bool, elapsed_ms: u128) -> (r: Result<(), LumidoxError>)
        ensures
            r is Ok,
            synced_at(old(self).state_of(), final(self).state_of(), device_present, elapsed_ms as nat),
    {
        StateManager::synchronize_with_device_after(&mut self.state, device_present, elapsed_ms)
    }

    /// Synchronizes the state with the device held beside it, if any: the
    /// cache is marked stale when it needs a refresh. Never fails.
    pub fn synchronize_with_device(&mut self, device_present: bool) -> (r: Result<(), LumidoxError>)
        ensures
            r is Ok,
            exists|e: nat| synced_at(old(self).state_of(), final(self).state_of(), device_present, e),
            synchronized(old(self).state_of(), final(self).state_of(), device_present),
            final(self).state_of().app_state == old(self).state_of().app_state,
            !device_present ==> final(self).state_of() == old(self).state_of(),
    {
        StateManager::synchronize_with_device(&mut self.state, device_present)
    }

    /// Shuts the window down: says whether the device held beside it is to
    /// be released, which is when it is connected, and clears the state.
    pub fn shutdown(&mut self) -> (release_device: bool)
        ensures
            release_device == old(self).state_of().connected(),
            final(self).state_of().app_state.validation.is_clear(),
            final(self).state_of().app_state.notifications.hidden(),
            final(self).state_of().device_state.cached_parameters.is_empty(),
            final(self).state_of().device_state.last_error is None,
            final(self).state_of().device_state.connection_state == old(self).state_of().device_state.connection_state,
    {
        let release = self.state.is_device_connected();
        self.state.clear();
        release
    }
}

} // verus!
