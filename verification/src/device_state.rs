//! Device connection, operation and cached-parameter state.

use vstd::prelude::*;
use vstd::string::*;

use std::time::{Duration, Instant};

use crate::error::{DeviceInfo, DeviceMode};
use crate::text::{copy_text, join2};

verus! {

/// A point of the monotonic clock; opaque to the proofs.
#[verifier::external_type_specification]
#[verifier::external_body]
pub struct ExInstant(Instant);

/// `std::time::Instant::now`: reads the monotonic clock. Nothing is claimed of
/// the reading.
#[verifier::external_body]
fn instant_now() -> Instant {
    Instant::now()
}

/// `std::time::Instant::elapsed`: the time passed since `since`. The result
/// depends on the clock, so nothing is claimed of it.
#[verifier::external_body]
fn instant_elapsed(since: &Instant) -> Duration {
    since.elapsed()
}

/// `std::time::Duration::as_millis`: a duration in whole milliseconds. The
/// duration is opaque to the proofs, so the result is left unsaid.
#[verifier::external_body]
fn duration_as_millis(d: &Duration) -> u128 {
    d.as_millis()
}

/// Device connection state.
#[derive(Debug, Clone, PartialEq)]
pub enum ConnectionState {
    /// Device is disconnected.
    Disconnected,
    /// Device is connecting.
    Connecting,
    /// Device is connected and operational.
    Connected,
    /// Device connection failed, with the reason.
    Failed(String),
    /// Device is reconnecting after a failure.
    Reconnecting,
}

impl ConnectionState {
    /// The state a new device state starts in: disconnected.
    pub fn default_state() -> (r: ConnectionState)
        ensures
            r == ConnectionState::Disconnected,
    {
        ConnectionState::Disconnected
    }
}

/// Device operation state.
#[derive(Debug, Clone, PartialEq)]
pub enum OperationState {
    /// Idle and ready for operations.
    Idle,
    /// Performing the named operation.
    Busy(String),
    /// The named operation completed successfully.
    Success(String),
    /// The last operation failed, with the reason.
    Failed(String),
}

impl OperationState {
    /// The state a new device state starts in: idle.
    pub fn default_state() -> (r: OperationState)
        ensures
            r == OperationState::Idle,
    {
        OperationState::Idle
    }
}

/// How long cached parameters stay valid after an update, in milliseconds.
pub const CACHE_DURATION_MS: u64 = 5000;

/// Cached device parameters.
#[derive(Debug)]
pub struct CachedParameters {
    /// ARM current setting (mA).
    pub arm_current: Option<u16>,
    /// FIRE current setting (mA).
    pub fire_current: Option<u16>,
    /// Maximum current limit (mA).
    pub max_current: Option<u16>,
    /// Device remote mode.
    pub remote_mode: Option<DeviceMode>,
    /// Device information.
    pub device_info: Option<DeviceInfo>,
    /// When a parameter was last stored.
    pub last_update: Option<Instant>,
    /// Cache validity duration, in milliseconds.
    pub cache_duration: u64,
}

impl CachedParameters {
    /// Whether every cached parameter is absent.
    pub open spec fn is_empty(&self) -> bool {
        &&& self.arm_current is None
        &&& self.fire_current is None
        &&& self.max_current is None
        &&& self.remote_mode is None
        &&& self.device_info is None
        &&& self.last_update is None
    }

    /// Whether the cache is valid once `elapsed_ms` milliseconds have passed
    /// since its last update.
    pub open spec fn valid_after(&self, elapsed_ms: nat) -> bool {
        self.last_update is Some && elapsed_ms < self.cache_duration
    }

    /// An empty cache with a five second validity.
    pub fn new() -> (r: Self)
        ensures
            r.is_empty(),
            r.cache_duration == CACHE_DURATION_MS,
    {
        CachedParameters {
            arm_current: None,
            fire_current: None,
            max_current: None,
            remote_mode: None,
            device_info: None,
            last_update: None,
            cache_duration: CACHE_DURATION_MS,
        }
    }

    /// Whether the cache is valid `elapsed_ms` milliseconds after its last update.
    pub fn is_cache_valid_after(&self, elapsed_ms: u128) -> (r: bool)
        ensures
            r == self.valid_after(elapsed_ms as nat),
    {
        match &self.last_update {
            Some(_) => elapsed_ms < self.cache_duration as u128,
            None => false,
        }
    }

    /// The milliseconds the clock shows since the last update; 0 without one.
    pub(crate) fn age_ms(&self) -> u128 {
        match &self.last_update {
            Some(t) => duration_as_millis(&instant_elapsed(t)),
            None => 0,
        }
    }

    /// Whether the cache is valid now: it has been updated, and less than the
    /// validity duration has passed since, by the clock's reading.
    pub fn is_cache_valid(&self) -> (r: bool)
        ensures
            exists|e: nat| r == self.valid_after(e),
            self.last_update is None ==> !r,
            self.cache_duration == 0 ==> !r,
            r ==> exists|e: nat| self.valid_after(e),
    {
        let e = self.age_ms();
        let r = self.is_cache_valid_after(e);
        assert(r == self.valid_after(e as nat));
        r
    }

    /// Stores the ARM current and stamps the update time.
    pub fn update_arm_current(&mut self, current: u16)
        ensures
            final(self).arm_current == Some(current),
            final(self).last_update is Some,
            final(self).fire_current == old(self).fire_current,
            final(self).max_current == old(self).max_current,
            final(self).remote_mode == old(self).remote_mode,
            final(self).device_info == old(self).device_info,
            final(self).cache_duration == old(self).cache_duration,
    {
        self.arm_current = Some(current);
        self.last_update = Some(instant_now());
    }

    /// Stores the FIRE current and stamps the update time.
    pub fn update_fire_current(&mut self, current: u16)
        ensures
            final(self).fire_current == Some(current),
            final(self).last_update is Some,
            final(self).arm_current == old(self).arm_current,
            final(self).max_current == old(self).max_current,
            final(self).remote_mode == old(self).remote_mode,
            final(self).device_info == old(self).device_info,
            final(self).cache_duration == old(self).cache_duration,
    {
        self.fire_current = Some(current);
        self.last_update = Some(instant_now());
    }

    /// Stores the remote mode and stamps the update time.
    pub fn update_remote_mode(&mut self, mode: DeviceMode)
        ensures
            final(self).remote_mode == Some(mode),
            final(self).last_update is Some,
            final(self).arm_current == old(self).arm_current,
            final(self).fire_current == old(self).fire_current,
            final(self).max_current == old(self).max_current,
            final(self).device_info == old(self).device_info,
            final(self).cache_duration == old(self).cache_duration,
    {
        self.remote_mode = Some(mode);
        self.last_update = Some(instant_now());
    }

    /// Stores the device information and stamps the update time.
    pub fn update_device_info(&mut self, info: DeviceInfo)
        ensures
            final(self).device_info == Some(info),
            final(self).last_update is Some,
            final(self).arm_current == old(self).arm_current,
            final(self).fire_current == old(self).fire_current,
            final(self).max_current == old(self).max_current,
            final(self).remote_mode == old(self).remote_mode,
            final(self).cache_duration == old(self).cache_duration,
    {
        self.device_info = Some(info);
        self.last_update = Some(instant_now());
    }

    /// Forgets every cached parameter and the update time.
    pub fn clear_cache(&mut self)
        ensures
            final(self).is_empty(),
            final(self).cache_duration == old(self).cache_duration,
    {
        self.arm_current = None;
        self.fire_current = None;
        self.max_current = None;
        self.remote_mode = None;
        self.device_info = None;
        self.last_update = None;
    }

    /// Marks the cache stale, keeping the cached values.
    pub fn invalidate(&mut self)
        ensures
            final(self).last_update is None,
            final(self).arm_current == old(self).arm_current,
            final(self).fire_current == old(self).fire_current,
            final(self).max_current == old(self).max_current,
            final(self).remote_mode == old(self).remote_mode,
            final(self).device_info == old(self).device_info,
            final(self).cache_duration == old(self).cache_duration,
    {
        self.last_update = None;
    }
}

/// The largest number of connection retries a new device state allows.
pub const DEFAULT_MAX_RETRIES: u32 = 3;

/// Device state: connection, operation, cached parameters and configuration.
#[derive(Debug)]
pub struct DeviceState {
    /// Current connection state.
    pub connection_state: ConnectionState,
    /// Current operation state.
    pub operation_state: OperationState,
    /// Cached device parameters.
    pub cached_parameters: CachedParameters,
    /// Port name for connection.
    pub port_name: Option<String>,
    /// Auto-detection enabled.
    pub auto_detect: bool,
    /// Verbose mode enabled.
    pub verbose: bool,
    /// Optimize transitions enabled.
    pub optimize_transitions: bool,
    /// Last error message.
    pub last_error: Option<String>,
    /// Connection retry count.
    pub retry_count: u32,
    /// Maximum retry attempts.
    pub max_retries: u32,
}

impl DeviceState {
    /// Whether the state is connected.
    pub open spec fn connected(&self) -> bool {
        self.connection_state is Connected
    }

    /// Whether an operation is in progress.
    pub open spec fn busy(&self) -> bool {
        self.operation_state is Busy
    }

    /// Whether the connection state forgets the cached parameters.
    pub open spec fn clears_cache(state: ConnectionState) -> bool {
        state is Disconnected || state is Failed
    }

    /// Whether two states agree on everything but the connection, operation,
    /// cache and error fields.
    pub open spec fn same_config(&self, other: &Self) -> bool {
        &&& self.port_name == other.port_name
        &&& self.auto_detect == other.auto_detect
        &&& self.verbose == other.verbose
        &&& self.optimize_transitions == other.optimize_transitions
        &&& self.retry_count == other.retry_count
        &&& self.max_retries == other.max_retries
    }

    /// A state as `new` makes it, with the given configuration.
    pub open spec fn is_initial(&self) -> bool {
        &&& self.connection_state == ConnectionState::Disconnected
        &&& self.operation_state == OperationState::Idle
        &&& self.cached_parameters.is_empty()
        &&& self.cached_parameters.cache_duration == CACHE_DURATION_MS
        &&& self.last_error is None
        &&& self.retry_count == 0
        &&& self.max_retries == DEFAULT_MAX_RETRIES
    }

    /// A disconnected, idle state with no configured port, auto-detection and
    /// verbose output off, and optimized transitions on.
    pub fn new() -> (r: Self)
        ensures
            r.is_initial(),
            r.port_name is None,
            !r.auto_detect,
            !r.verbose,
            r.optimize_transitions,
    {
        DeviceState {
            connection_state: ConnectionState::default_state(),
            operation_state: OperationState::default_state(),
            cached_parameters: CachedParameters::new(),
            port_name: None,
            auto_detect: false,
            verbose: false,
            optimize_transitions: true,
            last_error: None,
            retry_count: 0,
            max_retries: DEFAULT_MAX_RETRIES,
        }
    }

    /// A new state with the given configuration.
    pub fn with_config(
        port_name: Option<String>,
        auto_detect: bool,
        verbose: bool,
        optimize_transitions: bool,
    ) -> (r: Self)
        ensures
            r.is_initial(),
            r.port_name == port_name,
            r.auto_detect == auto_detect,
            r.verbose == verbose,
            r.optimize_transitions == optimize_transitions,
    {
        let mut s = Self::new();
        s.port_name = port_name;
        s.auto_detect = auto_detect;
        s.verbose = verbose;
        s.optimize_transitions = optimize_transitions;
        s
    }

    /// Sets the connection state; a disconnected or failed state forgets the
    /// cached parameters.
    pub fn set_connection_state(&mut self, state: ConnectionState)
        ensures
            final(self).connection_state == state,
            Self::clears_cache(state) ==> final(self).cached_parameters.is_empty(),
            !Self::clears_cache(state) ==> final(self).cached_parameters == old(self).cached_parameters,
            final(self).cached_parameters.cache_duration == old(self).cached_parameters.cache_duration,
            final(self).operation_state == old(self).operation_state,
            final(self).last_error == old(self).last_error,
            final(self).same_config(&*old(self)),
    {
        let clears = match &state {
            ConnectionState::Disconnected => true,
            ConnectionState::Failed(_) => true,
            _ => false,
        };
        self.connection_state = state;
        if clears {
            self.cached_parameters.clear_cache();
        }
    }

    /// Sets the operation state.
    pub fn set_operation_state(&mut self, state: OperationState)
        ensures
            final(self).operation_state == state,
            final(self).connection_state == old(self).connection_state,
            final(self).cached_parameters == old(self).cached_parameters,
            final(self).last_error == old(self).last_error,
            final(self).same_config(&*old(self)),
    {
        self.operation_state = state;
    }

    /// Whether the device is connected.
    pub fn is_connected(&self) -> (r: bool)
        ensures
            r == self.connected(),
    {
        match &self.connection_state {
            ConnectionState::Connected => true,
            _ => false,
        }
    }

    /// Whether the device is busy with an operation.
    pub fn is_busy(&self) -> (r: bool)
        ensures
            r == self.busy(),
    {
        match &self.operation_state {
            OperationState::Busy(_) => true,
            _ => false,
        }
    }

    /// Records an error: it becomes the last error, and the connection fails
    /// with it (which forgets the cached parameters).
    pub fn set_error(&mut self, error: String)
        ensures
            final(self).last_error == Some(error),
            final(self).connection_state == ConnectionState::Failed(error),
            final(self).cached_parameters.is_empty(),
            final(self).cached_parameters.cache_duration == old(self).cached_parameters.cache_duration,
            final(self).operation_state == old(self).operation_state,
            final(self).same_config(&*old(self)),
    {
        self.last_error = Some(error.clone());
        self.set_connection_state(ConnectionState::Failed(error));
    }

    /// Forgets the last error.
    pub fn clear_error(&mut self)
        ensures
            final(self).last_error is None,
            final(self).connection_state == old(self).connection_state,
            final(self).operation_state == old(self).operation_state,
            final(self).cached_parameters == old(self).cached_parameters,
            final(self).same_config(&*old(self)),
    {
        self.last_error = None;
    }

    /// Counts one more retry and tells whether it is within the allowed number.
    pub fn increment_retry(&mut self) -> (r: bool)
        requires
            old(self).retry_count < u32::MAX,
        ensures
            final(self).retry_count == old(self).retry_count + 1,
            r == (final(self).retry_count <= final(self).max_retries),
            final(self).max_retries == old(self).max_retries,
            final(self).connection_state == old(self).connection_state,
            final(self).operation_state == old(self).operation_state,
            final(self).cached_parameters == old(self).cached_parameters,
            final(self).last_error == old(self).last_error,
    {
        self.retry_count = self.retry_count + 1;
        self.retry_count <= self.max_retries
    }

    /// Resets the retry count.
    pub fn reset_retry(&mut self)
        ensures
            final(self).retry_count == 0,
            final(self).max_retries == old(self).max_retries,
            final(self).connection_state == old(self).connection_state,
            final(self).operation_state == old(self).operation_state,
            final(self).cached_parameters == old(self).cached_parameters,
            final(self).last_error == old(self).last_error,
    {
        self.retry_count = 0;
    }

    /// Caches the ARM current.
    pub fn update_arm_current(&mut self, current: u16)
        ensures
            final(self).cached_parameters.arm_current == Some(current),
            final(self).cached_parameters.last_update is Some,
            final(self).cached_parameters.fire_current == old(self).cached_parameters.fire_current,
            final(self).cached_parameters.remote_mode == old(self).cached_parameters.remote_mode,
            final(self).cached_parameters.device_info == old(self).cached_parameters.device_info,
            final(self).cached_parameters.max_current == old(self).cached_parameters.max_current,
            final(self).cached_parameters.cache_duration == old(self).cached_parameters.cache_duration,
            final(self).connection_state == old(self).connection_state,
            final(self).operation_state == old(self).operation_state,
            final(self).last_error == old(self).last_error,
            final(self).same_config(&*old(self)),
    {
        self.cached_parameters.update_arm_current(current);
    }

    /// Caches the FIRE current.
    pub fn update_fire_current(&mut self, current: u16)
        ensures
            final(self).cached_parameters.fire_current == Some(current),
            final(self).cached_parameters.last_update is Some,
            final(self).cached_parameters.arm_current == old(self).cached_parameters.arm_current,
            final(self).cached_parameters.remote_mode == old(self).cached_parameters.remote_mode,
            final(self).cached_parameters.device_info == old(self).cached_parameters.device_info,
            final(self).cached_parameters.max_current == old(self).cached_parameters.max_current,
            final(self).cached_parameters.cache_duration == old(self).cached_parameters.cache_duration,
            final(self).connection_state == old(self).connection_state,
            final(self).operation_state == old(self).operation_state,
            final(self).last_error == old(self).last_error,
            final(self).same_config(&*old(self)),
    {
        self.cached_parameters.update_fire_current(current);
    }

    /// Caches the remote mode.
    pub fn update_remote_mode(&mut self, mode: DeviceMode)
        ensures
            final(self).cached_parameters.remote_mode == Some(mode),
            final(self).cached_parameters.last_update is Some,
            final(self).cached_parameters.arm_current == old(self).cached_parameters.arm_current,
            final(self).cached_parameters.fire_current == old(self).cached_parameters.fire_current,
            final(self).cached_parameters.device_info == old(self).cached_parameters.device_info,
            final(self).cached_parameters.max_current == old(self).cached_parameters.max_current,
            final(self).cached_parameters.cache_duration == old(self).cached_parameters.cache_duration,
            final(self).connection_state == old(self).connection_state,
            final(self).operation_state == old(self).operation_state,
            final(self).last_error == old(self).last_error,
            final(self).same_config(&*old(self)),
    {
        self.cached_parameters.update_remote_mode(mode);
    }

    /// Caches the device information.
    pub fn update_device_info(&mut self, info: DeviceInfo)
        ensures
            final(self).cached_parameters.device_info == Some(info),
            final(self).cached_parameters.last_update is Some,
            final(self).cached_parameters.arm_current == old(self).cached_parameters.arm_current,
            final(self).cached_parameters.fire_current == old(self).cached_parameters.fire_current,
            final(self).cached_parameters.remote_mode == old(self).cached_parameters.remote_mode,
            final(self).cached_parameters.max_current == old(self).cached_parameters.max_current,
            final(self).cached_parameters.cache_duration == old(self).cached_parameters.cache_duration,
            final(self).connection_state == old(self).connection_state,
            final(self).operation_state == old(self).operation_state,
            final(self).last_error == old(self).last_error,
            final(self).same_config(&*old(self)),
    {
        self.cached_parameters.update_device_info(info);
    }

    /// The ARM current the cache gives `elapsed` milliseconds after its last
    /// update: the cached one while the cache is valid, else none.
    pub open spec fn arm_current_at(&self, elapsed: nat) -> Option<u16> {
        if self.cached_parameters.valid_after(elapsed) {
            self.cached_parameters.arm_current
        } else {
            None
        }
    }

    /// The FIRE current the cache gives `elapsed` milliseconds after its last
    /// update.
    pub open spec fn fire_current_at(&self, elapsed: nat) -> Option<u16> {
        if self.cached_parameters.valid_after(elapsed) {
            self.cached_parameters.fire_current
        } else {
            None
        }
    }

    /// The remote mode the cache gives `elapsed` milliseconds after its last
    /// update.
    pub open spec fn remote_mode_at(&self, elapsed: nat) -> Option<DeviceMode> {
        if self.cached_parameters.valid_after(elapsed) {
            self.cached_parameters.remote_mode
        } else {
            None
        }
    }

    /// The device information the cache gives `elapsed` milliseconds after
    /// its last update.
    pub open spec fn device_info_at(&self, elapsed: nat) -> Option<DeviceInfo> {
        if self.cached_parameters.valid_after(elapsed) {
            self.cached_parameters.device_info
        } else {
            None
        }
    }

    /// Whether a borrowed optional value holds exactly the optional value.
    pub open spec fn borrowed_is(r: Option<&DeviceInfo>, v: Option<DeviceInfo>) -> bool {
        match r {
            Some(i) => v == Some(*i),
            None => v is None,
        }
    }

    /// The cached ARM current `elapsed_ms` milliseconds after the last update.
    pub fn get_arm_current_after(&self, elapsed_ms: u128) -> (r: Option<u16>)
        ensures
            r == self.arm_current_at(elapsed_ms as nat),
    {
        if self.cached_parameters.is_cache_valid_after(elapsed_ms) {
            self.cached_parameters.arm_current
        } else {
            None
        }
    }

    /// The cached ARM current while the cache is valid by the clock.
    pub fn get_arm_current(&self) -> (r: Option<u16>)
        ensures
            exists|e: nat| r == self.arm_current_at(e),
            r is Some ==> r == self.cached_parameters.arm_current,
            self.cached_parameters.last_update is None ==> r is None,
    {
        let e = self.cached_parameters.age_ms();
        let r = self.get_arm_current_after(e);
        assert(r == self.arm_current_at(e as nat));
        r
    }

    /// The cached FIRE current `elapsed_ms` milliseconds after the last update.
    pub fn get_fire_current_after(&self, elapsed_ms: u128) -> (r: Option<u16>)
        ensures
            r == self.fire_current_at(elapsed_ms as nat),
    {
        if self.cached_parameters.is_cache_valid_after(elapsed_ms) {
            self.cached_parameters.fire_current
        } else {
            None
        }
    }

    /// The cached FIRE current while the cache is valid by the clock.
    pub fn get_fire_current(&self) -> (r: Option<u16>)
        ensures
            exists|e: nat| r == self.fire_current_at(e),
            r is Some ==> r == self.cached_parameters.fire_current,
            self.cached_parameters.last_update is None ==> r is None,
    {
        let e = self.cached_parameters.age_ms();
        let r = self.get_fire_current_after(e);
        assert(r == self.fire_current_at(e as nat));
        r
    }

    /// The cached remote mode `elapsed_ms` milliseconds after the last update.
    pub fn get_remote_mode_after(&self, elapsed_ms: u128) -> (r: Option<DeviceMode>)
        ensures
            r == self.remote_mode_at(elapsed_ms as nat),
    {
        if self.cached_parameters.is_cache_valid_after(elapsed_ms) {
            self.cached_parameters.remote_mode
        } else {
            None
        }
    }

    /// The cached remote mode while the cache is valid by the clock.
    pub fn get_remote_mode(&self) -> (r: Option<DeviceMode>)
        ensures
            exists|e: nat| r == self.remote_mode_at(e),
            r is Some ==> r == self.cached_parameters.remote_mode,
            self.cached_parameters.last_update is None ==> r is None,
    {
        let e = self.cached_parameters.age_ms();
        let r = self.get_remote_mode_after(e);
        assert(r == self.remote_mode_at(e as nat));
        r
    }

    /// The cached device information `elapsed_ms` milliseconds after the last
    /// update.
    pub fn get_device_info_after(&self, elapsed_ms: u128) -> (r: Option<&DeviceInfo>)
        ensures
            Self::borrowed_is(r, self.device_info_at(elapsed_ms as nat)),
    {
        if self.cached_parameters.is_cache_valid_after(elapsed_ms) {
            self.cached_parameters.device_info.as_ref()
        } else {
            None
        }
    }

    /// The cached device information while the cache is valid by the clock.
    pub fn get_device_info(&self) -> (r: Option<&DeviceInfo>)
        ensures
            exists|e: nat| Self::borrowed_is(r, self.device_info_at(e)),
            r matches Some(i) ==> self.cached_parameters.device_info == Some(*i),
            self.cached_parameters.last_update is None ==> r is None,
    {
        let e = self.cached_parameters.age_ms();
        let r = self.get_device_info_after(e);
        assert(Self::borrowed_is(r, self.device_info_at(e as nat)));
        r
    }

    /// Marks the parameter cache stale.
    pub fn invalidate_cache(&mut self)
        ensures
            final(self).cached_parameters.last_update is None,
            final(self).cached_parameters.arm_current == old(self).cached_parameters.arm_current,
            final(self).cached_parameters.fire_current == old(self).cached_parameters.fire_current,
            final(self).cached_parameters.remote_mode == old(self).cached_parameters.remote_mode,
            final(self).cached_parameters.device_info == old(self).cached_parameters.device_info,
            final(self).cached_parameters.max_current == old(self).cached_parameters.max_current,
            final(self).cached_parameters.cache_duration == old(self).cached_parameters.cache_duration,
            final(self).connection_state == old(self).connection_state,
            final(self).operation_state == old(self).operation_state,
            final(self).last_error == old(self).last_error,
            final(self).same_config(&*old(self)),
    {
        self.cached_parameters.invalidate();
    }

    /// The text that describes the connection state.
    pub open spec fn connection_text(state: ConnectionState) -> Seq<char> {
        match state {
            ConnectionState::Disconnected => "Disconnected"@,
            ConnectionState::Connecting => "Connecting..."@,
            ConnectionState::Connected => "Connected"@,
            ConnectionState::Failed(e) => "Failed: "@ + e@,
            ConnectionState::Reconnecting => "Reconnecting..."@,
        }
    }

    /// The text that describes the operation state.
    pub open spec fn operation_text(state: OperationState) -> Seq<char> {
        match state {
            OperationState::Idle => "Ready"@,
            OperationState::Busy(o) => "Busy: "@ + o@,
            OperationState::Success(o) => "Success: "@ + o@,
            OperationState::Failed(e) => "Failed: "@ + e@,
        }
    }

    /// Describes the connection state.
    pub fn get_connection_description(&self) -> (s: String)
        ensures
            s@ == Self::connection_text(self.connection_state),
    {
        match &self.connection_state {
            ConnectionState::Disconnected => copy_text("Disconnected"),
            ConnectionState::Connecting => copy_text("Connecting..."),
            ConnectionState::Connected => copy_text("Connected"),
            ConnectionState::Failed(error) => join2("Failed: ", error.as_str()),
            ConnectionState::Reconnecting => copy_text("Reconnecting..."),
        }
    }

    /// Describes the operation state.
    pub fn get_operation_description(&self) -> (s: String)
        ensures
            s@ == Self::operation_text(self.operation_state),
    {
        match &self.operation_state {
            OperationState::Idle => copy_text("Ready"),
            OperationState::Busy(operation) => join2("Busy: ", operation.as_str()),
            OperationState::Success(operation) => join2("Success: ", operation.as_str()),
            OperationState::Failed(error) => join2("Failed: ", error.as_str()),
        }
    }

    /// Whether the parameters should be read again `elapsed` milliseconds
    /// after the last update: the device is connected and the cache is not
    /// valid.
    pub open spec fn needs_refresh_at(&self, elapsed: nat) -> bool {
        !self.cached_parameters.valid_after(elapsed) && self.connected()
    }

    /// The state with its cache marked stale.
    pub open spec fn stale(self) -> DeviceState {
        DeviceState {
            cached_parameters: CachedParameters { last_update: None, ..self.cached_parameters },
            ..self
        }
    }

    /// Whether the parameters should be read again `elapsed_ms` milliseconds
    /// after the last update.
    pub fn needs_cache_refresh_after(&self, elapsed_ms: u128) -> (r: bool)
        ensures
            r == self.needs_refresh_at(elapsed_ms as nat),
    {
        !self.cached_parameters.is_cache_valid_after(elapsed_ms) && self.is_connected()
    }

    /// Whether the parameters should be read again: the device is connected and
    /// the cache is not valid by the clock.
    pub fn needs_cache_refresh(&self) -> (r: bool)
        ensures
            exists|e: nat| r == self.needs_refresh_at(e),
            r ==> self.connected(),
            !self.connected() ==> !r,
            (self.connected() && self.cached_parameters.last_update is None) ==> r,
            (self.connected() && self.cached_parameters.cache_duration == 0) ==> r,
    {
        let e = self.cached_parameters.age_ms();
        let r = self.needs_cache_refresh_after(e);
        assert(r == self.needs_refresh_at(e as nat));
        r
    }
}


impl Default for ConnectionState {
    /// Disconnected.
    fn default() -> (r: Self)
        ensures
            r == ConnectionState::Disconnected,
    {
        ConnectionState::default_state()
    }
}

impl Default for OperationState {
    /// Idle.
    fn default() -> (r: Self)
        ensures
            r == OperationState::Idle,
    {
        OperationState::default_state()
    }
}

impl Default for CachedParameters {
    /// Nothing cached and no validity period: unlike `new`, a cache made so
    /// is never valid.
    fn default() -> (r: Self)
        ensures
            r.is_empty(),
            r.cache_duration == 0,
    {
        CachedParameters {
            arm_current: None,
            fire_current: None,
            max_current: None,
            remote_mode: None,
            device_info: None,
            last_update: None,
            cache_duration: 0,
        }
    }
}

impl Default for DeviceState {
    /// Disconnected and idle, nothing cached, no port, no detection, quiet,
    /// optimized transitions.
    fn default() -> (r: Self)
        ensures
            r.is_initial(),
            r.port_name is None,
            !r.auto_detect,
            !r.verbose,
            r.optimize_transitions,
    {
        DeviceState::new()
    }
}

} // verus!
