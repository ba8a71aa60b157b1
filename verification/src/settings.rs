//! Application settings.

use vstd::prelude::*;
use crate::instance::Timestamp;
use crate::resource::{clamp_int, ResourceLimits, ResourceLimitsView};
use crate::text::{child_path, clone_opt_text, join_path};

verus! {

/// Asks `dirs::data_dir` for the user's data directory. The answer comes
/// from the environment of the running process, so nothing is claimed of it.
#[verifier::external_body]
fn user_data_dir() -> (dir: Option<String>) {
    dirs::data_dir().map(|p| p.to_string_lossy().into_owned())
}

/// Application theme.
#[derive(Debug, Clone, Copy, PartialEq, Eq, Structural)]
pub enum Theme {
    Dark,
    Light,
    System,
}

impl Theme {
    /// The name of the theme as shown to people.
    pub fn label(&self) -> (r: &'static str)
        ensures
            r@ == match self {
                Theme::Dark => "Dark"@,
                Theme::Light => "Light"@,
                Theme::System => "System"@,
            },
    {
        match self {
            Theme::Dark => "Dark",
            Theme::Light => "Light",
            Theme::System => "System",
        }
    }

    /// Every theme, in menu order.
    pub fn all() -> (r: Vec<Theme>)
        ensures
            r@ == seq![Theme::Dark, Theme::Light, Theme::System],
    {
        let mut r: Vec<Theme> = Vec::new();
        r.push(Theme::Dark);
        r.push(Theme::Light);
        r.push(Theme::System);
        assert(r@ =~= seq![Theme::Dark, Theme::Light, Theme::System]);
        r
    }
}

impl Default for Theme {
    fn default() -> (r: Self)
        ensures
            r == Theme::Dark,
    {
        Theme::Dark
    }
}

/// Which notifications are shown.
#[derive(Debug, Clone, Copy, PartialEq, Eq, Structural)]
pub enum NotificationLevel {
    /// Every notification.
    All,
    /// Only the important ones.
    Important,
    /// No notification at all.
    Off,
}

impl NotificationLevel {
    /// The name of the level as shown to people.
    pub fn label(&self) -> (r: &'static str)
        ensures
            r@ == match self {
                NotificationLevel::All => "All"@,
                NotificationLevel::Important => "Important Only"@,
                NotificationLevel::Off => "None"@,
            },
    {
        match self {
            NotificationLevel::All => "All",
            NotificationLevel::Important => "Important Only",
            NotificationLevel::Off => "None",
        }
    }

    /// Every level, in menu order.
    pub fn all() -> (r: Vec<NotificationLevel>)
        ensures
            r@ == seq![
                NotificationLevel::All,
                NotificationLevel::Important,
                NotificationLevel::Off,
            ],
    {
        let mut r: Vec<NotificationLevel> = Vec::new();
        r.push(NotificationLevel::All);
        r.push(NotificationLevel::Important);
        r.push(NotificationLevel::Off);
        assert(r@ =~= seq![
            NotificationLevel::All,
            NotificationLevel::Important,
            NotificationLevel::Off,
        ]);
        r
    }
}

impl Default for NotificationLevel {
    fn default() -> (r: Self)
        ensures
            r == NotificationLevel::Important,
    {
        NotificationLevel::Important
    }
}

/// How the instance list is laid out.
#[derive(Debug, Clone, Copy, PartialEq, Eq, Structural)]
pub enum ViewMode {
    Grid,
    List,
    Compact,
}

impl ViewMode {
    /// The name of the layout as shown to people.
    pub fn label(&self) -> (r: &'static str)
        ensures
            r@ == match self {
                ViewMode::Grid => "Grid"@,
                ViewMode::List => "List"@,
                ViewMode::Compact => "Compact"@,
            },
    {
        match self {
            ViewMode::Grid => "Grid",
            ViewMode::List => "List",
            ViewMode::Compact => "Compact",
        }
    }

    /// Every layout, in menu order.
    pub fn all() -> (r: Vec<ViewMode>)
        ensures
            r@ == seq![ViewMode::Grid, ViewMode::List, ViewMode::Compact],
    {
        let mut r: Vec<ViewMode> = Vec::new();
        r.push(ViewMode::Grid);
        r.push(ViewMode::List);
        r.push(ViewMode::Compact);
        assert(r@ =~= seq![ViewMode::Grid, ViewMode::List, ViewMode::Compact]);
        r
    }
}

impl Default for ViewMode {
    fn default() -> (r: Self)
        ensures
            r == ViewMode::Grid,
    {
        ViewMode::Grid
    }
}

/// Everything the user can configure, and the interface state that is kept
/// between runs.
#[derive(Debug)]
pub struct Settings {
    /// Start together with the system.
    pub start_with_system: bool,
    /// Minimise to the system tray in place of closing.
    pub minimize_to_tray: bool,
    /// Restore the previous session at startup.
    pub auto_restore_sessions: bool,
    /// Application theme.
    pub theme: Theme,
    /// Layout of the instance list.
    pub view_mode: ViewMode,
    /// Show the system resource overview.
    pub show_system_resources: bool,
    /// CPU limit of new instances in percent (0 = unlimited).
    pub default_cpu_limit: u8,
    /// Memory limit of new instances in MB (0 = unlimited).
    pub default_ram_limit: u64,
    /// Network limit of new instances in KB/s (0 = unlimited).
    pub default_network_limit: u64,
    /// Priority of new instances.
    pub default_priority: i8,
    /// Delay between staggered launches in milliseconds.
    pub staggered_launch_delay_ms: u32,
    /// Respawn crashed instances by default.
    pub default_auto_restart: bool,
    /// Delay before a respawn in seconds.
    pub default_restart_delay_secs: u32,
    /// Run health checks.
    pub enable_health_checks: bool,
    /// Time between health checks in seconds.
    pub health_check_interval_secs: u32,
    /// Which notifications are shown.
    pub notification_level: NotificationLevel,
    /// Play a sound with notifications.
    pub notification_sound: bool,
    /// Data directory chosen by hand.
    pub data_directory: Option<String>,
    /// Write debug logs.
    pub debug_logging: bool,
    /// Most instances allowed (0 = unlimited).
    pub max_instances: u32,
    /// Time between resource polls in milliseconds.
    pub monitor_interval_ms: u32,
    /// Days for which instance history is kept (0 = forever).
    pub history_retention_days: u32,
    /// Whether the sidebar is collapsed.
    pub sidebar_collapsed: bool,
    /// The application path that was selected last.
    pub last_app_path: Option<String>,
    /// Window position.
    pub window_position: Option<(i32, i32)>,
    /// Window size.
    pub window_size: Option<(u32, u32)>,
}

/// Name of the application's directory under the user's data directory.
pub open spec fn app_directory_name() -> Seq<char> {
    "MultiInstance"@
}

/// The data directory: the one chosen by hand, or else the application's
/// directory under the user's data directory, or under `"."` where the
/// system names none.
pub open spec fn data_directory_of(chosen: Option<Seq<char>>, user_dir: Option<Seq<char>>) -> Seq<
    char,
> {
    match chosen {
        Some(dir) => dir,
        None => match user_dir {
            Some(dir) => child_path(dir, app_directory_name()),
            None => child_path("."@, app_directory_name()),
        },
    }
}

/// Least accepted time between resource polls, in milliseconds.
pub const MIN_MONITOR_INTERVAL_MS: u32 = 100;

/// Least accepted time between health checks, in seconds.
pub const MIN_HEALTH_CHECK_INTERVAL_SECS: u32 = 5;

impl Settings {
    /// The data directory, given the user's data directory as the system
    /// names it.
    pub fn data_directory_in(&self, user_dir: Option<String>) -> (r: String)
        ensures
            r@ == data_directory_of(self.data_directory.deep_view(), user_dir.deep_view()),
    {
        match &self.data_directory {
            Some(dir) => dir.clone(),
            None => match user_dir {
                Some(dir) => join_path(dir.as_str(), "MultiInstance"),
                None => join_path(".", "MultiInstance"),
            },
        }
    }

    /// The data directory: the one chosen by hand, or else the application's
    /// directory under the user's data directory as the environment names it.
    pub fn get_data_directory(&self) -> (r: String)
        ensures
            exists|user_dir: Option<Seq<char>>|
                r@ == data_directory_of(self.data_directory.deep_view(), user_dir),
    {
        self.data_directory_in(user_data_dir())
    }

    /// The directory of the instances' private data directories.
    pub fn get_instances_directory(&self) -> (r: String)
        ensures
            exists|user_dir: Option<Seq<char>>|
                r@ == child_path(
                    data_directory_of(self.data_directory.deep_view(), user_dir),
                    "instances"@,
                ),
    {
        let base = self.get_data_directory();
        join_path(base.as_str(), "instances")
    }

    /// The directory of exported profiles.
    pub fn get_profiles_directory(&self) -> (r: String)
        ensures
            exists|user_dir: Option<Seq<char>>|
                r@ == child_path(
                    data_directory_of(self.data_directory.deep_view(), user_dir),
                    "profiles"@,
                ),
    {
        let base = self.get_data_directory();
        join_path(base.as_str(), "profiles")
    }

    /// The directory of log files.
    pub fn get_logs_directory(&self) -> (r: String)
        ensures
            exists|user_dir: Option<Seq<char>>|
                r@ == child_path(
                    data_directory_of(self.data_directory.deep_view(), user_dir),
                    "logs"@,
                ),
    {
        let base = self.get_data_directory();
        join_path(base.as_str(), "logs")
    }

    /// Brings every setting into its accepted range: the CPU limit to at most
    /// 100, the priority into -20..=19, the poll interval to at least 100 ms
    /// and the health-check interval to at least 5 s. Nothing else changes.
    pub fn validate(&mut self)
        ensures
            final(self).default_cpu_limit as int == clamp_int(
                old(self).default_cpu_limit as int,
                0,
                100,
            ),
            final(self).default_priority as int == clamp_int(
                old(self).default_priority as int,
                -20,
                19,
            ),
            final(self).monitor_interval_ms as int == clamp_int(
                old(self).monitor_interval_ms as int,
                100,
                u32::MAX as int,
            ),
            final(self).health_check_interval_secs as int == clamp_int(
                old(self).health_check_interval_secs as int,
                5,
                u32::MAX as int,
            ),
            *final(self) == (Settings {
                default_cpu_limit: final(self).default_cpu_limit,
                default_priority: final(self).default_priority,
                monitor_interval_ms: final(self).monitor_interval_ms,
                health_check_interval_secs: final(self).health_check_interval_secs,
                ..*old(self)
            }),
    {
        let cpu: u8 = if self.default_cpu_limit > 100 {
            100
        } else {
            self.default_cpu_limit
        };
        let priority: i8 = if self.default_priority < -20 {
            -20
        } else if self.default_priority > 19 {
            19
        } else {
            self.default_priority
        };
        let interval: u32 = if self.monitor_interval_ms < MIN_MONITOR_INTERVAL_MS {
            MIN_MONITOR_INTERVAL_MS
        } else {
            self.monitor_interval_ms
        };
        let health: u32 = if self.health_check_interval_secs < MIN_HEALTH_CHECK_INTERVAL_SECS {
            MIN_HEALTH_CHECK_INTERVAL_SECS
        } else {
            self.health_check_interval_secs
        };
        self.default_cpu_limit = cpu;
        self.default_priority = priority;
        self.monitor_interval_ms = interval;
        self.health_check_interval_secs = health;
    }

    /// The time before which instance history is to be forgotten as of `now`:
    /// as many days back as history is retained, or nothing where it is kept
    /// for ever.
    pub fn history_cutoff(&self, now: Timestamp) -> (r: Option<Timestamp>)
        ensures
            r == if self.history_retention_days == 0 {
                None::<Timestamp>
            } else {
                Some(now.days_before_spec(self.history_retention_days))
            },
    {
        if self.history_retention_days == 0 {
            None
        } else {
            Some(now.days_before(self.history_retention_days))
        }
    }

    /// The resource limits of a new instance: the default CPU, memory,
    /// network and priority settings, and no other cap.
    pub fn default_resource_limits(&self) -> (r: ResourceLimits)
        ensures
            r@ == (ResourceLimitsView {
                cpu_percent: self.default_cpu_limit,
                cpu_affinity: Seq::empty(),
                memory_mb: self.default_ram_limit,
                network_kbps: self.default_network_limit,
                priority: self.default_priority,
                gpu_memory_mb: 0,
            }),
    {
        let r = ResourceLimits {
            cpu_percent: self.default_cpu_limit,
            cpu_affinity: Vec::new(),
            memory_mb: self.default_ram_limit,
            network_kbps: self.default_network_limit,
            priority: self.default_priority,
            gpu_memory_mb: 0,
        };
        assert(r@.cpu_affinity =~= Seq::empty());
        r
    }
}

impl Default for Settings {
    fn default() -> (r: Self)
        ensures
            !r.start_with_system,
            r.minimize_to_tray,
            !r.auto_restore_sessions,
            r.theme == Theme::Dark,
            r.view_mode == ViewMode::Grid,
            r.show_system_resources,
            r.default_cpu_limit == 0,
            r.default_ram_limit == 0,
            r.default_network_limit == 0,
            r.default_priority == 0,
            r.staggered_launch_delay_ms == 1000,
            !r.default_auto_restart,
            r.default_restart_delay_secs == 5,
            !r.enable_health_checks,
            r.health_check_interval_secs == 30,
            r.notification_level == NotificationLevel::Important,
            r.notification_sound,
            r.data_directory is None,
            !r.debug_logging,
            r.max_instances == 0,
            r.monitor_interval_ms == 1000,
            r.history_retention_days == 30,
            !r.sidebar_collapsed,
            r.last_app_path is None,
            r.window_position is None,
            r.window_size is None,
    {
        Settings {
            start_with_system: false,
            minimize_to_tray: true,
            auto_restore_sessions: false,
            theme: Theme::Dark,
            view_mode: ViewMode::Grid,
            show_system_resources: true,
            default_cpu_limit: 0,
            default_ram_limit: 0,
            default_network_limit: 0,
            default_priority: 0,
            staggered_launch_delay_ms: 1000,
            default_auto_restart: false,
            default_restart_delay_secs: 5,
            enable_health_checks: false,
            health_check_interval_secs: 30,
            notification_level: NotificationLevel::Important,
            notification_sound: true,
            data_directory: None,
            debug_logging: false,
            max_instances: 0,
            monitor_interval_ms: 1000,
            history_retention_days: 30,
            sidebar_collapsed: false,
            last_app_path: None,
            window_position: None,
            window_size: None,
        }
    }
}

impl Clone for Settings {
    fn clone(&self) -> (r: Self)
        ensures
            r.data_directory.deep_view() == self.data_directory.deep_view(),
            r.last_app_path.deep_view() == self.last_app_path.deep_view(),
            r == (Settings {
                data_directory: r.data_directory,
                last_app_path: r.last_app_path,
                ..*self
            }),
    {
        Settings {
            start_with_system: self.start_with_system,
            minimize_to_tray: self.minimize_to_tray,
            auto_restore_sessions: self.auto_restore_sessions,
            theme: self.theme,
            view_mode: self.view_mode,
            show_system_resources: self.show_system_resources,
            default_cpu_limit: self.default_cpu_limit,
            default_ram_limit: self.default_ram_limit,
            default_network_limit: self.default_network_limit,
            default_priority: self.default_priority,
            staggered_launch_delay_ms: self.staggered_launch_delay_ms,
            default_auto_restart: self.default_auto_restart,
            default_restart_delay_secs: self.default_restart_delay_secs,
            enable_health_checks: self.enable_health_checks,
            health_check_interval_secs: self.health_check_interval_secs,
            notification_level: self.notification_level,
            notification_sound: self.notification_sound,
            data_directory: clone_opt_text(&self.data_directory),
            debug_logging: self.debug_logging,
            max_instances: self.max_instances,
            monitor_interval_ms: self.monitor_interval_ms,
            history_retention_days: self.history_retention_days,
            sidebar_collapsed: self.sidebar_collapsed,
            last_app_path: clone_opt_text(&self.last_app_path),
            window_position: self.window_position,
            window_size: self.window_size,
        }
    }
}

} // verus!
