//! The managed instance: its identity, its immutable launch configuration and
//! the state machine that its status follows.

use vstd::prelude::*;
use crate::resource::{clamp_int, ResourceLimits, ResourceLimitsView, ResourceUsage};
use crate::text::{
    clone_opt_text, clone_text_pairs, clone_texts, decimal, hyphenated_text,
    push_decimal, push_signed_decimal, signed_decimal,
};

verus! {

/// Whether `id` carries the version and variant marks of a random identifier.
pub open spec fn is_random_id(id: u128) -> bool {
    id & 0x0000_0000_0000_f000_c000_0000_0000_0000 == 0x0000_0000_0000_4000_8000_0000_0000_0000
}

/// Draws a fresh random identifier with `uuid::Uuid::new_v4` and hands it
/// back as its 128-bit value. Nothing is claimed of the random bits; only the
/// version (4) and variant marks that the generator always sets are stated.
#[verifier::external_body]
pub(crate) fn random_id() -> (id: u128)
    ensures
        is_random_id(id),
{
    uuid::Uuid::new_v4().as_u128()
}

/// Renders an identifier through `uuid::Uuid`'s `Display`, which writes the
/// hyphenated form: the 32 hexadecimal digits of the number in lower case,
/// highest place first, in groups of 8, 4, 4, 4 and 12 with a hyphen between
/// them.
#[verifier::external_body]
pub(crate) fn id_text(id: u128) -> (text: String)
    ensures
        text@ == hyphenated_text(id),
{
    uuid::Uuid::from_u128(id).to_string()
}

/// Reads the wall clock with `chrono::Utc::now` and splits the reading into
/// whole seconds since the Unix epoch and the nanoseconds within the second.
/// Only what holds of every reading is stated: the clock never reports a time
/// before the epoch (it stops the program instead), and the sub-second part
/// stays below one second.
#[verifier::external_body]
fn clock_now() -> (now: Timestamp)
    ensures
        now.secs >= 0,
        now.nanos < 1_000_000_000,
{
    let t = chrono::Utc::now();
    Timestamp { secs: t.timestamp(), nanos: t.timestamp_subsec_nanos() }
}

/// Takes the last component of a path without its extension, by
/// `std::path::Path::file_stem`. What counts as a separator depends on the
/// operating system, so nothing is claimed of the result.
#[verifier::external_body]
fn file_stem(path: &str) -> (stem: Option<String>) {
    std::path::Path::new(path).file_stem().and_then(|s| s.to_str()).map(|s| s.to_string())
}

/// Unique identifier of an instance, drawn at random when it is created.
#[derive(Debug, Clone, Copy, PartialEq, Eq, Hash, Structural)]
pub struct InstanceId(pub u128);

impl InstanceId {
    /// A fresh random identifier.
    pub fn new() -> (id: Self)
        ensures
            is_random_id(id.0),
    {
        InstanceId(random_id())
    }

    /// The identifier in its canonical hyphenated form.
    pub fn to_text(&self) -> (text: String)
        ensures
            text@ == hyphenated_text(self.0),
    {
        id_text(self.0)
    }
}

/// A point in time: seconds since the Unix epoch and nanoseconds within the
/// second.
#[derive(Debug, Clone, Copy, PartialEq, Eq, Structural)]
pub struct Timestamp {
    pub secs: i64,
    pub nanos: u32,
}

/// Nanoseconds in one second.
pub const NANOS_PER_SEC: i128 = 1_000_000_000;

/// The quotient of `a` by the positive `b`, rounded toward zero.
pub open spec fn truncated_div(a: int, b: int) -> int
    recommends
        b > 0,
{
    if a >= 0 {
        a / b
    } else {
        -((-a) / b)
    }
}

/// The whole seconds that pass from `from` to `to`, rounded toward zero;
/// negative when `to` is the earlier one.
pub open spec fn elapsed_seconds(from: Timestamp, to: Timestamp) -> int {
    truncated_div(
        (to.secs - from.secs) * 1_000_000_000 + (to.nanos - from.nanos),
        1_000_000_000,
    )
}

impl Timestamp {
    /// The current time.
    pub fn now() -> (now: Self)
        ensures
            now.secs >= 0,
            now.nanos < 1_000_000_000,
    {
        clock_now()
    }

    /// The time `days` days before `self`, kept within the range of the
    /// seconds.
    pub open spec fn days_before_spec(self, days: u32) -> Timestamp {
        Timestamp {
            secs: clamp_int(self.secs - days * 86_400, i64::MIN as int, i64::MAX as int) as i64,
            nanos: self.nanos,
        }
    }

    /// The time `days` days before `self`.
    pub fn days_before(&self, days: u32) -> (r: Timestamp)
        ensures
            r == self.days_before_spec(days),
    {
        let span: i64 = (days as i64) * 86_400;
        let secs = if self.secs < i64::MIN + span {
            i64::MIN
        } else {
            self.secs - span
        };
        Timestamp { secs, nanos: self.nanos }
    }

    /// The whole seconds from `self` to `later`, kept within the range of a
    /// signed 64-bit number.
    pub open spec fn seconds_until_spec(self, later: Timestamp) -> i64 {
        clamp_int(elapsed_seconds(self, later), i64::MIN as int, i64::MAX as int) as i64
    }

    /// The whole seconds from `self` to `later`, kept within the range of the
    /// result type.
    pub fn seconds_until(&self, later: &Timestamp) -> (r: i64)
        ensures
            r == self.seconds_until_spec(*later),
    {
        let ds: i128 = later.secs as i128 - self.secs as i128;
        let dn: i128 = later.nanos as i128 - self.nanos as i128;
        assert(-0x1_0000_0000_0000_0000 < ds < 0x1_0000_0000_0000_0000);
        let total: i128 = ds * NANOS_PER_SEC + dn;
        let whole: i128 = if total >= 0 {
            total / NANOS_PER_SEC
        } else {
            -((-total) / NANOS_PER_SEC)
        };
        if whole < i64::MIN as i128 {
            i64::MIN
        } else if whole > i64::MAX as i128 {
            i64::MAX
        } else {
            whole as i64
        }
    }
}

/// Where an instance stands in its lifecycle.
#[derive(Debug, Clone, Copy, PartialEq, Eq, Structural)]
pub enum InstanceStatus {
    /// Launched, liveness not yet confirmed.
    Starting,
    /// Running normally.
    Running,
    /// Suspended.
    Paused,
    /// Asked to stop.
    Stopping,
    /// Stopped.
    Stopped,
    /// Exited abnormally.
    Crashed,
    /// Not known.
    Unknown,
}

impl InstanceStatus {
    /// Whether the status is one of the live ones: starting, running, paused.
    pub open spec fn spec_is_active(&self) -> bool {
        *self == InstanceStatus::Starting || *self == InstanceStatus::Running || *self
            == InstanceStatus::Paused
    }

    /// Whether the status is one of the live ones: starting, running, paused.
    #[verifier::when_used_as_spec(spec_is_active)]
    pub fn is_active(&self) -> (r: bool)
        ensures
            r == self.spec_is_active(),
    {
        matches!(self, InstanceStatus::Starting | InstanceStatus::Running | InstanceStatus::Paused)
    }

    /// The colour that marks the status, as red, green and blue.
    pub open spec fn color_of(&self) -> (u8, u8, u8) {
        match self {
            InstanceStatus::Starting => (251u8, 191u8, 36u8),
            InstanceStatus::Running => (34u8, 197u8, 94u8),
            InstanceStatus::Paused => (59u8, 130u8, 246u8),
            InstanceStatus::Stopping => (251u8, 146u8, 60u8),
            InstanceStatus::Stopped => (156u8, 163u8, 175u8),
            InstanceStatus::Crashed => (239u8, 68u8, 68u8),
            InstanceStatus::Unknown => (107u8, 114u8, 128u8),
        }
    }

    /// The colour that marks the status, as red, green and blue: yellow
    /// while starting, green while running, blue while paused, orange while
    /// stopping, grey when stopped, red when crashed, dark grey when unknown.
    pub fn color(&self) -> (r: (u8, u8, u8))
        ensures
            r == self.color_of(),
    {
        match self {
            InstanceStatus::Starting => (251, 191, 36),
            InstanceStatus::Running => (34, 197, 94),
            InstanceStatus::Paused => (59, 130, 246),
            InstanceStatus::Stopping => (251, 146, 60),
            InstanceStatus::Stopped => (156, 163, 175),
            InstanceStatus::Crashed => (239, 68, 68),
            InstanceStatus::Unknown => (107, 114, 128),
        }
    }

    /// The name of the status as shown to people.
    pub open spec fn label_text(&self) -> Seq<char> {
        match self {
            InstanceStatus::Starting => "Starting"@,
            InstanceStatus::Running => "Running"@,
            InstanceStatus::Paused => "Paused"@,
            InstanceStatus::Stopping => "Stopping"@,
            InstanceStatus::Stopped => "Stopped"@,
            InstanceStatus::Crashed => "Crashed"@,
            InstanceStatus::Unknown => "Unknown"@,
        }
    }

    /// The name of the status as shown to people.
    pub fn label(&self) -> (r: &'static str)
        ensures
            r@ == self.label_text(),
    {
        match self {
            InstanceStatus::Starting => "Starting",
            InstanceStatus::Running => "Running",
            InstanceStatus::Paused => "Paused",
            InstanceStatus::Stopping => "Stopping",
            InstanceStatus::Stopped => "Stopped",
            InstanceStatus::Crashed => "Crashed",
            InstanceStatus::Unknown => "Unknown",
        }
    }
}

/// The immutable launch specification of an instance.
#[derive(Debug)]
pub struct InstanceConfig {
    /// Display name.
    pub name: String,
    /// Path of the executable.
    pub executable_path: String,
    /// Command-line arguments.
    pub arguments: Vec<String>,
    /// Working directory; the executable's directory when absent.
    pub working_directory: Option<String>,
    /// Environment variables to set, in order.
    pub environment: Vec<(String, String)>,
    /// Resource caps applied at spawn time.
    pub resource_limits: ResourceLimits,
    /// Private data directory, when one is chosen by hand.
    pub data_directory: Option<String>,
    /// Whether to defeat the application's single-instance guard.
    pub bypass_single_instance: bool,
    /// Whether to point the home and application-data variables at a private
    /// directory.
    pub use_environment_isolation: bool,
    /// Group for organisation.
    pub group: Option<String>,
    /// Path of a custom icon.
    pub icon_path: Option<String>,
    /// Free-form notes.
    pub notes: String,
    /// Whether to respawn after a crash.
    pub auto_restart: bool,
    /// Seconds to wait before a respawn.
    pub restart_delay_secs: u32,
    /// Whether to hide the instance's windows from the taskbar.
    pub hide_from_taskbar: bool,
}

/// What an `InstanceConfig` holds, as plain values.
pub struct InstanceConfigView {
    pub name: Seq<char>,
    pub executable_path: Seq<char>,
    pub arguments: Seq<Seq<char>>,
    pub working_directory: Option<Seq<char>>,
    pub environment: Seq<(Seq<char>, Seq<char>)>,
    pub resource_limits: ResourceLimitsView,
    pub data_directory: Option<Seq<char>>,
    pub bypass_single_instance: bool,
    pub use_environment_isolation: bool,
    pub group: Option<Seq<char>>,
    pub icon_path: Option<Seq<char>>,
    pub notes: Seq<char>,
    pub auto_restart: bool,
    pub restart_delay_secs: u32,
    pub hide_from_taskbar: bool,
}

impl View for InstanceConfig {
    type V = InstanceConfigView;

    open spec fn view(&self) -> InstanceConfigView {
        InstanceConfigView {
            name: self.name@,
            executable_path: self.executable_path@,
            arguments: self.arguments.deep_view(),
            working_directory: self.working_directory.deep_view(),
            environment: self.environment.deep_view(),
            resource_limits: self.resource_limits@,
            data_directory: self.data_directory.deep_view(),
            bypass_single_instance: self.bypass_single_instance,
            use_environment_isolation: self.use_environment_isolation,
            group: self.group.deep_view(),
            icon_path: self.icon_path.deep_view(),
            notes: self.notes@,
            auto_restart: self.auto_restart,
            restart_delay_secs: self.restart_delay_secs,
            hide_from_taskbar: self.hide_from_taskbar,
        }
    }
}

impl DeepView for InstanceConfig {
    type V = InstanceConfigView;

    open spec fn deep_view(&self) -> InstanceConfigView {
        self@
    }
}

/// Seconds that a respawn waits unless the configuration says otherwise.
pub const DEFAULT_RESTART_DELAY_SECS: u32 = 5;

impl InstanceConfig {
    /// The configuration that launches `executable_path` under `name` with
    /// every other setting at its default.
    pub open spec fn initial(name: Seq<char>, executable_path: Seq<char>) -> InstanceConfigView {
        InstanceConfigView {
            name,
            executable_path,
            arguments: Seq::empty(),
            working_directory: None,
            environment: Seq::empty(),
            resource_limits: ResourceLimitsView {
                cpu_percent: 0,
                cpu_affinity: Seq::empty(),
                memory_mb: 0,
                network_kbps: 0,
                priority: 0,
                gpu_memory_mb: 0,
            },
            data_directory: None,
            bypass_single_instance: true,
            use_environment_isolation: false,
            group: None,
            icon_path: None,
            notes: Seq::empty(),
            auto_restart: false,
            restart_delay_secs: DEFAULT_RESTART_DELAY_SECS,
            hide_from_taskbar: false,
        }
    }

    /// A configuration for `executable_path` under the display name `name`:
    /// single-instance bypass on, environment isolation off, no auto-restart,
    /// no limits.
    pub fn new(name: String, executable_path: String) -> (r: Self)
        ensures
            r@ == Self::initial(name@, executable_path@),
    {
        let r = InstanceConfig {
            name,
            executable_path,
            arguments: Vec::new(),
            working_directory: None,
            environment: Vec::new(),
            resource_limits: ResourceLimits::unlimited(),
            data_directory: None,
            bypass_single_instance: true,
            use_environment_isolation: false,
            group: None,
            icon_path: None,
            notes: String::new(),
            auto_restart: false,
            restart_delay_secs: DEFAULT_RESTART_DELAY_SECS,
            hide_from_taskbar: false,
        };
        assert(r@.arguments =~= Seq::empty());
        assert(r@.environment =~= Seq::empty());
        assert(r@.resource_limits.cpu_affinity =~= Seq::empty());
        r
    }

    /// Replaces the command-line arguments.
    pub fn with_arguments(self, args: Vec<String>) -> (r: Self)
        ensures
            r@ == (InstanceConfigView { arguments: args.deep_view(), ..self@ }),
    {
        let mut r = self;
        r.arguments = args;
        r
    }

    /// Replaces the resource limits.
    pub fn with_resource_limits(self, limits: ResourceLimits) -> (r: Self)
        ensures
            r@ == (InstanceConfigView { resource_limits: limits@, ..self@ }),
    {
        let mut r = self;
        r.resource_limits = limits;
        r
    }

    /// Chooses the private data directory by hand.
    pub fn with_data_directory(self, path: String) -> (r: Self)
        ensures
            r@ == (InstanceConfigView { data_directory: Some(path@), ..self@ }),
    {
        let mut r = self;
        r.data_directory = Some(path);
        r
    }

    /// Puts the configuration into a group.
    pub fn with_group(self, group: String) -> (r: Self)
        ensures
            r@ == (InstanceConfigView { group: Some(group@), ..self@ }),
    {
        let mut r = self;
        r.group = Some(group);
        r
    }
}

impl Default for InstanceConfig {
    fn default() -> (r: Self)
        ensures
            r@ == InstanceConfig::initial(Seq::empty(), Seq::empty()),
    {
        InstanceConfig::new(String::new(), String::new())
    }
}

impl Clone for InstanceConfig {
    fn clone(&self) -> (r: Self)
        ensures
            r@ == self@,
    {
        InstanceConfig {
            name: self.name.clone(),
            executable_path: self.executable_path.clone(),
            arguments: clone_texts(&self.arguments),
            working_directory: clone_opt_text(&self.working_directory),
            environment: clone_text_pairs(&self.environment),
            resource_limits: self.resource_limits.clone(),
            data_directory: clone_opt_text(&self.data_directory),
            bypass_single_instance: self.bypass_single_instance,
            use_environment_isolation: self.use_environment_isolation,
            group: clone_opt_text(&self.group),
            icon_path: clone_opt_text(&self.icon_path),
            notes: self.notes.clone(),
            auto_restart: self.auto_restart,
            restart_delay_secs: self.restart_delay_secs,
            hide_from_taskbar: self.hide_from_taskbar,
        }
    }
}


/// One managed launch of an executable, tracked through its lifecycle.
#[derive(Debug)]
pub struct Instance {
    /// Unique identifier.
    pub id: InstanceId,
    /// The launch specification.
    pub config: InstanceConfig,
    /// Current status.
    pub status: InstanceStatus,
    /// Process id of the last launch; kept for display after the process is
    /// gone.
    pub pid: Option<u32>,
    /// When the instance was created.
    pub created_at: Timestamp,
    /// When the instance was last started.
    pub started_at: Option<Timestamp>,
    /// When the instance last stopped.
    pub stopped_at: Option<Timestamp>,
    /// Latest resource snapshot; never persisted.
    pub resource_usage: ResourceUsage,
    /// How often the instance was respawned after a crash.
    pub restart_count: u32,
    /// Detail of the last abnormal exit.
    pub last_error: Option<String>,
}

/// What an `Instance` holds, as plain values.
pub struct InstanceView {
    pub id: InstanceId,
    pub config: InstanceConfigView,
    pub status: InstanceStatus,
    pub pid: Option<u32>,
    pub created_at: Timestamp,
    pub started_at: Option<Timestamp>,
    pub stopped_at: Option<Timestamp>,
    pub resource_usage: ResourceUsage,
    pub restart_count: u32,
    pub last_error: Option<Seq<char>>,
}

impl View for Instance {
    type V = InstanceView;

    open spec fn view(&self) -> InstanceView {
        InstanceView {
            id: self.id,
            config: self.config@,
            status: self.status,
            pid: self.pid,
            created_at: self.created_at,
            started_at: self.started_at,
            stopped_at: self.stopped_at,
            resource_usage: self.resource_usage,
            restart_count: self.restart_count,
            last_error: self.last_error.deep_view(),
        }
    }
}

impl InstanceView {
    /// The invariant of every instance: a live status comes with a process
    /// id, and an instance that is not live reports no resource usage.
    pub open spec fn wf(&self) -> bool {
        &&& self.status.is_active() ==> self.pid is Some
        &&& !self.status.is_active() ==> self.resource_usage == ResourceUsage::zero()
    }

    /// The instance as it is right after its creation at `now`.
    pub open spec fn created(id: InstanceId, config: InstanceConfigView, now: Timestamp) -> Self {
        InstanceView {
            id,
            config,
            status: InstanceStatus::Stopped,
            pid: None,
            created_at: now,
            started_at: None,
            stopped_at: None,
            resource_usage: ResourceUsage::zero(),
            restart_count: 0,
            last_error: None,
        }
    }

    /// The instance after a launch at `now` gave the process `pid`.
    pub open spec fn started(self, pid: u32, now: Timestamp) -> Self {
        InstanceView {
            status: InstanceStatus::Starting,
            pid: Some(pid),
            started_at: Some(now),
            stopped_at: None,
            last_error: None,
            ..self
        }
    }

    /// The instance after it stopped at `now`.
    pub open spec fn stopped(self, now: Timestamp) -> Self {
        InstanceView {
            status: InstanceStatus::Stopped,
            stopped_at: Some(now),
            resource_usage: ResourceUsage::zero(),
            ..self
        }
    }

    /// The instance after it crashed at `now` with the detail `error`.
    pub open spec fn crashed(self, error: Option<Seq<char>>, now: Timestamp) -> Self {
        InstanceView {
            status: InstanceStatus::Crashed,
            stopped_at: Some(now),
            last_error: error,
            resource_usage: ResourceUsage::zero(),
            ..self
        }
    }

    /// Whether a crash should be answered with a respawn.
    pub open spec fn should_auto_restart(&self) -> bool {
        self.config.auto_restart && self.status == InstanceStatus::Crashed
    }
}

/// The name shown for an instance: its configured name, or else the stem of
/// its executable's file name, or else `"Unknown"`.
pub open spec fn display_name_of(name: Seq<char>, stem: Option<Seq<char>>) -> Seq<char> {
    if name.len() > 0 {
        name
    } else {
        match stem {
            Some(s) => s,
            None => "Unknown"@,
        }
    }
}

/// Picks the name shown for an instance from its configured name and the
/// stem of its executable's file name.
pub fn choose_display_name(name: &str, stem: Option<String>) -> (r: String)
    ensures
        r@ == display_name_of(name@, stem.deep_view()),
{
    if name.unicode_len() > 0 {
        String::from_str(name)
    } else {
        match stem {
            Some(s) => s,
            None => String::from_str("Unknown"),
        }
    }
}

/// A running time in seconds, written in its two largest units, such as
/// `"42s"`, `"3m 7s"`, `"2h 15m"` or `"1d 4h"`.
pub open spec fn uptime_text(secs: int) -> Seq<char> {
    if secs < 60 {
        signed_decimal(secs) + seq!['s']
    } else if secs < 3600 {
        decimal((secs / 60) as nat) + seq!['m', ' '] + decimal((secs % 60) as nat) + seq!['s']
    } else if secs < 86400 {
        decimal((secs / 3600) as nat) + seq!['h', ' '] + decimal(((secs % 3600) / 60) as nat)
            + seq!['m']
    } else {
        decimal((secs / 86400) as nat) + seq!['d', ' '] + decimal(((secs % 86400) / 3600) as nat)
            + seq!['h']
    }
}

/// Writes a running time in seconds in its two largest units.
pub fn format_uptime(secs: i64) -> (r: String)
    ensures
        r@ == uptime_text(secs as int),
{
    proof {
        reveal_strlit("s");
        reveal_strlit("m ");
        reveal_strlit("h ");
        reveal_strlit("m");
        reveal_strlit("d ");
        reveal_strlit("h");
    }
    let mut r = String::new();
    if secs < 60 {
        push_signed_decimal(&mut r, secs);
        r.append("s");
    } else if secs < 3600 {
        push_decimal(&mut r, (secs / 60) as u64);
        r.append("m ");
        push_decimal(&mut r, (secs % 60) as u64);
        r.append("s");
    } else if secs < 86400 {
        push_decimal(&mut r, (secs / 3600) as u64);
        r.append("h ");
        push_decimal(&mut r, ((secs % 3600) / 60) as u64);
        r.append("m");
    } else {
        push_decimal(&mut r, (secs / 86400) as u64);
        r.append("d ");
        push_decimal(&mut r, ((secs % 86400) / 3600) as u64);
        r.append("h");
    }
    assert(r@ =~= uptime_text(secs as int));
    r
}

impl Instance {
    /// The invariant of every instance; see `InstanceView::wf`.
    pub open spec fn wf(&self) -> bool {
        self@.wf()
    }

    /// A new, stopped instance with a fresh identifier, created now.
    pub fn new(config: InstanceConfig) -> (r: Self)
        ensures
            r@ == InstanceView::created(r.id, config@, r.created_at),
            is_random_id(r.id.0),
            r.wf(),
    {
        Instance::with_identity(InstanceId::new(), config, Timestamp::now())
    }

    /// A new, stopped instance under the given identifier, created at `now`.
    pub fn with_identity(id: InstanceId, config: InstanceConfig, now: Timestamp) -> (r: Self)
        ensures
            r@ == InstanceView::created(id, config@, now),
            r.wf(),
    {
        Instance {
            id,
            config,
            status: InstanceStatus::Stopped,
            pid: None,
            created_at: now,
            started_at: None,
            stopped_at: None,
            resource_usage: ResourceUsage::default(),
            restart_count: 0,
            last_error: None,
        }
    }

    /// The name to show: the configured one, else the executable's file
    /// stem, else `"Unknown"`. The stem is taken by the operating system's
    /// path rules; `choose_display_name` says how the choice is made.
    pub fn display_name(&self) -> (r: String)
        ensures
            self.config.name@.len() > 0 ==> r@ == self.config.name@,
            exists|stem: Option<Seq<char>>| r@ == display_name_of(self.config.name@, stem),
    {
        let stem = file_stem(self.config.executable_path.as_str());
        choose_display_name(self.config.name.as_str(), stem)
    }

    /// Whole seconds since the last start, as of `now`; nothing if the
    /// instance was never started.
    pub fn uptime_at(&self, now: &Timestamp) -> (r: Option<i64>)
        ensures
            r == match self.started_at {
                Some(started) => Some(started.seconds_until_spec(*now)),
                None => None,
            },
    {
        match &self.started_at {
            Some(started) => Some(started.seconds_until(now)),
            None => None,
        }
    }

    /// Whole seconds since the last start, as of the current time.
    pub fn uptime(&self) -> (r: Option<i64>)
        ensures
            r is Some <==> self.started_at is Some,
            self.started_at is Some ==> exists|now: Timestamp|
                r == Some(self.started_at->0.seconds_until_spec(now)),
    {
        let now = Timestamp::now();
        self.uptime_at(&now)
    }

    /// The running time as text, as of the current time; `"-"` if the
    /// instance was never started. `format_uptime` says how a number of
    /// seconds is written.
    pub fn uptime_string(&self) -> (r: String)
        ensures
            self.started_at is None ==> r@ == seq!['-'],
            self.started_at is Some ==> exists|secs: i64| r@ == uptime_text(secs as int),
    {
        proof {
            reveal_strlit("-");
        }
        match self.uptime() {
            Some(secs) => format_uptime(secs),
            None => {
                let r = String::from_str("-");
                assert(r@ =~= seq!['-']);
                r
            },
        }
    }

    /// Whether a crash of this instance should be answered with a respawn.
    pub fn should_auto_restart(&self) -> (r: bool)
        ensures
            r == self@.should_auto_restart(),
    {
        self.config.auto_restart && matches!(self.status, InstanceStatus::Crashed)
    }

    /// Records a launch that gave the process `pid` at the time `now`.
    pub fn mark_starting_at(&mut self, pid: u32, now: Timestamp)
        ensures
            final(self)@ == old(self)@.started(pid, now),
            old(self).wf() ==> final(self).wf(),
    {
        self.status = InstanceStatus::Starting;
        self.pid = Some(pid);
        self.started_at = Some(now);
        self.stopped_at = None;
        self.last_error = None;
    }

    /// Records a launch that gave the process `pid`, at the current time.
    pub fn mark_starting(&mut self, pid: u32)
        ensures
            final(self).started_at is Some,
            final(self)@ == old(self)@.started(pid, final(self).started_at->0),
            old(self).wf() ==> final(self).wf(),
    {
        self.mark_starting_at(pid, Timestamp::now());
    }

    /// Records that liveness was confirmed.
    pub fn mark_running(&mut self)
        ensures
            final(self)@ == (InstanceView { status: InstanceStatus::Running, ..old(self)@ }),
            old(self).pid is Some ==> final(self).wf(),
    {
        self.status = InstanceStatus::Running;
    }

    /// Records a stop at the time `now` and resets the resource snapshot.
    pub fn mark_stopped_at(&mut self, now: Timestamp)
        ensures
            final(self)@ == old(self)@.stopped(now),
            final(self).wf(),
    {
        self.status = InstanceStatus::Stopped;
        self.stopped_at = Some(now);
        self.resource_usage = ResourceUsage::default();
    }

    /// Records a stop at the current time and resets the resource snapshot.
    pub fn mark_stopped(&mut self)
        ensures
            final(self).stopped_at is Some,
            final(self)@ == old(self)@.stopped(final(self).stopped_at->0),
            final(self).wf(),
    {
        self.mark_stopped_at(Timestamp::now());
    }

    /// Records an abnormal exit at the time `now` with its detail and resets
    /// the resource snapshot.
    pub fn mark_crashed_at(&mut self, error: Option<String>, now: Timestamp)
        ensures
            final(self)@ == old(self)@.crashed(error.deep_view(), now),
            final(self).wf(),
    {
        self.status = InstanceStatus::Crashed;
        self.stopped_at = Some(now);
        self.last_error = error;
        self.resource_usage = ResourceUsage::default();
    }

    /// Records an abnormal exit at the current time with its detail and
    /// resets the resource snapshot.
    pub fn mark_crashed(&mut self, error: Option<String>)
        ensures
            final(self).stopped_at is Some,
            final(self)@ == old(self)@.crashed(error.deep_view(), final(self).stopped_at->0),
            final(self).wf(),
    {
        self.mark_crashed_at(error, Timestamp::now());
    }

    /// Records a suspension.
    pub fn mark_paused(&mut self)
        ensures
            final(self)@ == (InstanceView { status: InstanceStatus::Paused, ..old(self)@ }),
            old(self).pid is Some ==> final(self).wf(),
    {
        self.status = InstanceStatus::Paused;
    }

    /// Counts one more respawn; the counter stays at its maximum once there.
    pub fn increment_restart_count(&mut self)
        ensures
            final(self)@ == (InstanceView {
                restart_count: if old(self).restart_count == u32::MAX {
                    u32::MAX
                } else {
                    (old(self).restart_count + 1) as u32
                },
                ..old(self)@
            }),
    {
        if self.restart_count < u32::MAX {
            self.restart_count = self.restart_count + 1;
        }
    }

    /// Overwrites the resource snapshot as a whole.
    pub fn update_resource_usage(&mut self, usage: ResourceUsage)
        ensures
            final(self)@ == (InstanceView { resource_usage: usage, ..old(self)@ }),
            old(self).wf() && old(self).status.is_active() ==> final(self).wf(),
    {
        self.resource_usage = usage;
    }
}

impl Clone for Instance {
    fn clone(&self) -> (r: Self)
        ensures
            r@ == self@,
    {
        Instance {
            id: self.id,
            config: self.config.clone(),
            status: self.status,
            pid: self.pid,
            created_at: self.created_at,
            started_at: self.started_at,
            stopped_at: self.stopped_at,
            resource_usage: self.resource_usage,
            restart_count: self.restart_count,
            last_error: clone_opt_text(&self.last_error),
        }
    }
}


} // verus!
