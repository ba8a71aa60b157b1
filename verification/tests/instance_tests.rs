use multi_instance::instance::{
    choose_display_name, format_uptime, Instance, InstanceConfig, InstanceId, InstanceStatus,
    Timestamp,
};
use multi_instance::resource::{ResourceLimits, ResourceUsage};

fn at(secs: i64, nanos: u32) -> Timestamp {
    Timestamp { secs, nanos }
}

fn sample_config() -> InstanceConfig {
    InstanceConfig::new("Browser".to_string(), "/opt/browser/bin/browser".to_string())
}

fn holds_invariant(instance: &Instance) -> bool {
    let live = instance.status.is_active();
    (!live || instance.pid.is_some()) && (live || instance.resource_usage == ResourceUsage::default())
}

#[test]
fn only_starting_running_and_paused_are_active() {
    assert!(InstanceStatus::Starting.is_active());
    assert!(InstanceStatus::Running.is_active());
    assert!(InstanceStatus::Paused.is_active());
    assert!(!InstanceStatus::Stopping.is_active());
    assert!(!InstanceStatus::Stopped.is_active());
    assert!(!InstanceStatus::Crashed.is_active());
    assert!(!InstanceStatus::Unknown.is_active());
}

#[test]
fn status_labels() {
    assert_eq!(InstanceStatus::Starting.label(), "Starting");
    assert_eq!(InstanceStatus::Running.label(), "Running");
    assert_eq!(InstanceStatus::Paused.label(), "Paused");
    assert_eq!(InstanceStatus::Stopping.label(), "Stopping");
    assert_eq!(InstanceStatus::Stopped.label(), "Stopped");
    assert_eq!(InstanceStatus::Crashed.label(), "Crashed");
    assert_eq!(InstanceStatus::Unknown.label(), "Unknown");
}

#[test]
fn new_identifiers_are_random_version_four() {
    let a = InstanceId::new();
    let b = InstanceId::new();
    assert_ne!(a, b);
    assert_eq!((a.0 >> 76) & 0xf, 4);
    assert_eq!((a.0 >> 62) & 0x3, 2);
    assert_eq!((b.0 >> 76) & 0xf, 4);
    assert_eq!((b.0 >> 62) & 0x3, 2);
}

#[test]
fn identifier_text_is_hyphenated_lower_case_hex() {
    let id = InstanceId(0x0123_4567_89ab_cdef_0123_4567_89AB_CDEF);
    assert_eq!(id.to_text(), "01234567-89ab-cdef-0123-456789abcdef");
    assert_eq!(InstanceId(0).to_text(), "00000000-0000-0000-0000-000000000000");
    assert_eq!(InstanceId(u128::MAX).to_text(), "ffffffff-ffff-ffff-ffff-ffffffffffff");
    assert_eq!(InstanceId(1).to_text(), "00000000-0000-0000-0000-000000000001");
    assert_eq!(InstanceId(1u128 << 127).to_text(), "80000000-0000-0000-0000-000000000000");
    assert_eq!(
        InstanceId(0x0123_4567_89ab_cdef_fedc_ba98_7654_3210).to_text(),
        "01234567-89ab-cdef-fedc-ba9876543210"
    );
}

#[test]
fn the_clock_reads_a_time_after_the_epoch() {
    let now = Timestamp::now();
    assert!(now.secs > 1_500_000_000);
    assert!(now.nanos < 1_000_000_000);
    let later = Timestamp::now();
    assert!(now.seconds_until(&later) >= 0);
}

#[test]
fn seconds_until_truncates_toward_zero() {
    assert_eq!(at(10, 900_000_000).seconds_until(&at(12, 100_000_000)), 1);
    assert_eq!(at(10, 0).seconds_until(&at(12, 0)), 2);
    assert_eq!(at(10, 0).seconds_until(&at(10, 999_999_999)), 0);
    assert_eq!(at(12, 100_000_000).seconds_until(&at(10, 900_000_000)), -1);
    assert_eq!(at(12, 0).seconds_until(&at(10, 0)), -2);
    assert_eq!(at(10, 500).seconds_until(&at(10, 400)), 0);
    assert_eq!(at(0, 0).seconds_until(&at(86_400, 0)), 86_400);
}

#[test]
fn seconds_until_stays_in_range() {
    assert_eq!(at(i64::MIN, 0).seconds_until(&at(i64::MAX, 0)), i64::MAX);
    assert_eq!(at(i64::MAX, 0).seconds_until(&at(i64::MIN, 0)), i64::MIN);
    assert_eq!(at(0, 0).seconds_until(&at(i64::MAX, 999_999_999)), i64::MAX);
}

#[test]
fn new_config_has_the_documented_defaults() {
    let config = sample_config();
    assert_eq!(config.name, "Browser");
    assert_eq!(config.executable_path, "/opt/browser/bin/browser");
    assert!(config.arguments.is_empty());
    assert_eq!(config.working_directory, None);
    assert!(config.environment.is_empty());
    assert!(!config.resource_limits.has_limits());
    assert_eq!(config.data_directory, None);
    assert!(config.bypass_single_instance);
    assert!(!config.use_environment_isolation);
    assert_eq!(config.group, None);
    assert_eq!(config.icon_path, None);
    assert_eq!(config.notes, "");
    assert!(!config.auto_restart);
    assert_eq!(config.restart_delay_secs, 5);
    assert!(!config.hide_from_taskbar);
}

#[test]
fn default_config_is_new_with_empty_name_and_path() {
    let config = InstanceConfig::default();
    assert_eq!(config.name, "");
    assert_eq!(config.executable_path, "");
    assert!(config.bypass_single_instance);
    assert_eq!(config.restart_delay_secs, 5);
}

#[test]
fn config_builders_set_one_field_each() {
    let config = sample_config()
        .with_arguments(vec!["--profile".to_string(), "work".to_string()])
        .with_resource_limits(ResourceLimits::default().with_memory_limit(256))
        .with_data_directory("/data/work".to_string())
        .with_group("Office".to_string());
    assert_eq!(config.arguments, vec!["--profile".to_string(), "work".to_string()]);
    assert_eq!(config.resource_limits.memory_mb, 256);
    assert_eq!(config.data_directory, Some("/data/work".to_string()));
    assert_eq!(config.group, Some("Office".to_string()));
    assert_eq!(config.name, "Browser");
    assert_eq!(config.executable_path, "/opt/browser/bin/browser");
    assert!(config.bypass_single_instance);
}

#[test]
fn cloned_config_holds_the_same_values() {
    let mut config = sample_config()
        .with_arguments(vec!["-a".to_string()])
        .with_group("G".to_string());
    config.environment.push(("KEY".to_string(), "value".to_string()));
    config.working_directory = Some("/work".to_string());
    config.auto_restart = true;
    let copy = config.clone();
    assert_eq!(copy.name, config.name);
    assert_eq!(copy.executable_path, config.executable_path);
    assert_eq!(copy.arguments, config.arguments);
    assert_eq!(copy.environment, config.environment);
    assert_eq!(copy.working_directory, config.working_directory);
    assert_eq!(copy.group, config.group);
    assert_eq!(copy.auto_restart, config.auto_restart);
}

#[test]
fn a_new_instance_is_stopped_without_a_process() {
    let instance = Instance::new(sample_config());
    assert_eq!(instance.status, InstanceStatus::Stopped);
    assert_eq!(instance.pid, None);
    assert_eq!(instance.started_at, None);
    assert_eq!(instance.stopped_at, None);
    assert_eq!(instance.resource_usage, ResourceUsage::default());
    assert_eq!(instance.restart_count, 0);
    assert_eq!(instance.last_error, None);
    assert_eq!(instance.config.name, "Browser");
    assert!(instance.created_at.secs > 1_500_000_000);
    assert!(holds_invariant(&instance));
}

#[test]
fn with_identity_uses_what_it_is_given() {
    let instance = Instance::with_identity(InstanceId(42), sample_config(), at(100, 5));
    assert_eq!(instance.id, InstanceId(42));
    assert_eq!(instance.created_at, at(100, 5));
    assert_eq!(instance.status, InstanceStatus::Stopped);
}

#[test]
fn display_name_prefers_the_configured_name() {
    let instance = Instance::new(sample_config());
    assert_eq!(instance.display_name(), "Browser");
}

#[test]
fn display_name_falls_back_to_the_executable_stem() {
    let instance =
        Instance::new(InstanceConfig::new(String::new(), "/usr/local/bin/editor.bin".to_string()));
    assert_eq!(instance.display_name(), "editor");
}

#[test]
fn display_name_is_unknown_without_name_and_stem() {
    let instance = Instance::new(InstanceConfig::default());
    assert_eq!(instance.display_name(), "Unknown");
    assert_eq!(choose_display_name("", None), "Unknown");
    assert_eq!(choose_display_name("", Some("stem".to_string())), "stem");
    assert_eq!(choose_display_name("name", Some("stem".to_string())), "name");
}

#[test]
fn uptime_formats_in_its_two_largest_units() {
    assert_eq!(format_uptime(0), "0s");
    assert_eq!(format_uptime(42), "42s");
    assert_eq!(format_uptime(59), "59s");
    assert_eq!(format_uptime(60), "1m 0s");
    assert_eq!(format_uptime(187), "3m 7s");
    assert_eq!(format_uptime(3599), "59m 59s");
    assert_eq!(format_uptime(3600), "1h 0m");
    assert_eq!(format_uptime(8100), "2h 15m");
    assert_eq!(format_uptime(86_399), "23h 59m");
    assert_eq!(format_uptime(86_400), "1d 0h");
    assert_eq!(format_uptime(100_800), "1d 4h");
    assert_eq!(format_uptime(-5), "-5s");
    assert_eq!(format_uptime(i64::MIN), "-9223372036854775808s");
    assert_eq!(format_uptime(i64::MAX), "106751991167300d 15h");
}

#[test]
fn uptime_is_absent_until_started() {
    let mut instance = Instance::new(sample_config());
    assert_eq!(instance.uptime_at(&at(50, 0)), None);
    assert_eq!(instance.uptime(), None);
    assert_eq!(instance.uptime_string(), "-");
    instance.mark_starting_at(7, at(10, 0));
    assert_eq!(instance.uptime_at(&at(75, 500)), Some(65));
    assert!(instance.uptime().is_some());
}

#[test]
fn mark_starting_records_the_process_and_clears_the_last_run() {
    let mut instance = Instance::new(sample_config());
    instance.mark_crashed_at(Some("boom".to_string()), at(5, 0));
    instance.mark_starting_at(1234, at(9, 1));
    assert_eq!(instance.status, InstanceStatus::Starting);
    assert_eq!(instance.pid, Some(1234));
    assert_eq!(instance.started_at, Some(at(9, 1)));
    assert_eq!(instance.stopped_at, None);
    assert_eq!(instance.last_error, None);
    assert!(holds_invariant(&instance));
    let mut other = Instance::new(sample_config());
    other.mark_starting(77);
    assert_eq!(other.status, InstanceStatus::Starting);
    assert_eq!(other.pid, Some(77));
    assert!(other.started_at.is_some());
}

#[test]
fn mark_stopped_resets_usage_and_keeps_the_pid_for_display() {
    let mut instance = Instance::new(sample_config());
    instance.mark_starting_at(1234, at(9, 0));
    instance.mark_running();
    let mut usage = ResourceUsage::default();
    usage.cpu_permille = 500;
    usage.memory_bytes = 1000;
    instance.update_resource_usage(usage);
    assert_eq!(instance.resource_usage.cpu_permille, 500);
    assert!(holds_invariant(&instance));
    instance.mark_stopped_at(at(20, 0));
    assert_eq!(instance.status, InstanceStatus::Stopped);
    assert_eq!(instance.stopped_at, Some(at(20, 0)));
    assert_eq!(instance.resource_usage, ResourceUsage::default());
    assert_eq!(instance.pid, Some(1234));
    assert!(holds_invariant(&instance));
    instance.mark_starting_at(5, at(30, 0));
    instance.mark_stopped();
    assert_eq!(instance.status, InstanceStatus::Stopped);
    assert!(instance.stopped_at.is_some());
}

#[test]
fn mark_crashed_records_the_detail_and_resets_usage() {
    let mut instance = Instance::new(sample_config());
    instance.mark_starting_at(1, at(1, 0));
    let mut usage = ResourceUsage::default();
    usage.thread_count = 3;
    instance.update_resource_usage(usage);
    instance.mark_crashed_at(Some("exit status: 1".to_string()), at(2, 0));
    assert_eq!(instance.status, InstanceStatus::Crashed);
    assert_eq!(instance.last_error, Some("exit status: 1".to_string()));
    assert_eq!(instance.stopped_at, Some(at(2, 0)));
    assert_eq!(instance.resource_usage, ResourceUsage::default());
    assert!(holds_invariant(&instance));
    instance.mark_crashed(None);
    assert_eq!(instance.status, InstanceStatus::Crashed);
    assert_eq!(instance.last_error, None);
}

#[test]
fn running_and_paused_change_only_the_status() {
    let mut instance = Instance::new(sample_config());
    instance.mark_starting_at(9, at(1, 0));
    instance.mark_running();
    assert_eq!(instance.status, InstanceStatus::Running);
    assert_eq!(instance.pid, Some(9));
    instance.mark_paused();
    assert_eq!(instance.status, InstanceStatus::Paused);
    assert_eq!(instance.pid, Some(9));
    assert_eq!(instance.started_at, Some(at(1, 0)));
    assert!(holds_invariant(&instance));
}

#[test]
fn auto_restart_needs_the_flag_and_a_crash() {
    let mut config = sample_config();
    config.auto_restart = true;
    let mut instance = Instance::new(config);
    assert!(!instance.should_auto_restart());
    instance.mark_starting_at(1, at(1, 0));
    assert!(!instance.should_auto_restart());
    instance.mark_crashed_at(None, at(2, 0));
    assert!(instance.should_auto_restart());
    let mut plain = Instance::new(sample_config());
    plain.mark_crashed_at(None, at(2, 0));
    assert!(!plain.should_auto_restart());
}

#[test]
fn restart_count_goes_up_by_one_and_stops_at_the_maximum() {
    let mut instance = Instance::new(sample_config());
    instance.increment_restart_count();
    assert_eq!(instance.restart_count, 1);
    instance.increment_restart_count();
    assert_eq!(instance.restart_count, 2);
    instance.restart_count = u32::MAX;
    instance.increment_restart_count();
    assert_eq!(instance.restart_count, u32::MAX);
}

#[test]
fn cloned_instance_holds_the_same_values() {
    let mut instance = Instance::new(sample_config());
    instance.mark_starting_at(3, at(4, 5));
    instance.mark_crashed_at(Some("x".to_string()), at(6, 7));
    let copy = instance.clone();
    assert_eq!(copy.id, instance.id);
    assert_eq!(copy.status, instance.status);
    assert_eq!(copy.pid, instance.pid);
    assert_eq!(copy.created_at, instance.created_at);
    assert_eq!(copy.started_at, instance.started_at);
    assert_eq!(copy.stopped_at, instance.stopped_at);
    assert_eq!(copy.last_error, instance.last_error);
    assert_eq!(copy.config.name, instance.config.name);
}

#[test]
fn status_colours() {
    assert_eq!(InstanceStatus::Starting.color(), (251, 191, 36));
    assert_eq!(InstanceStatus::Running.color(), (34, 197, 94));
    assert_eq!(InstanceStatus::Paused.color(), (59, 130, 246));
    assert_eq!(InstanceStatus::Stopping.color(), (251, 146, 60));
    assert_eq!(InstanceStatus::Stopped.color(), (156, 163, 175));
    assert_eq!(InstanceStatus::Crashed.color(), (239, 68, 68));
    assert_eq!(InstanceStatus::Unknown.color(), (107, 114, 128));
}

#[test]
fn days_before_goes_back_whole_days() {
    assert_eq!(at(1_000_000, 7).days_before(0), at(1_000_000, 7));
    assert_eq!(at(1_000_000, 7).days_before(1), at(913_600, 7));
    assert_eq!(at(0, 0).days_before(30), at(-2_592_000, 0));
    assert_eq!(at(i64::MIN + 5, 1).days_before(1), at(i64::MIN, 1));
    assert_eq!(at(i64::MIN, 1).days_before(u32::MAX), at(i64::MIN, 1));
    assert_eq!(at(i64::MAX, 0).days_before(u32::MAX), at(i64::MAX - 4_294_967_295 * 86_400, 0));
}
