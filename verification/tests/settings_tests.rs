use multi_instance::settings::{NotificationLevel, Settings, Theme, ViewMode};

#[test]
fn theme_labels_and_order() {
    assert_eq!(Theme::Dark.label(), "Dark");
    assert_eq!(Theme::Light.label(), "Light");
    assert_eq!(Theme::System.label(), "System");
    assert_eq!(Theme::all(), vec![Theme::Dark, Theme::Light, Theme::System]);
    assert_eq!(Theme::default(), Theme::Dark);
}

#[test]
fn notification_level_labels_and_order() {
    assert_eq!(NotificationLevel::All.label(), "All");
    assert_eq!(NotificationLevel::Important.label(), "Important Only");
    assert_eq!(NotificationLevel::Off.label(), "None");
    assert_eq!(
        NotificationLevel::all(),
        vec![NotificationLevel::All, NotificationLevel::Important, NotificationLevel::Off]
    );
    assert_eq!(NotificationLevel::default(), NotificationLevel::Important);
}

#[test]
fn view_mode_labels_and_order() {
    assert_eq!(ViewMode::Grid.label(), "Grid");
    assert_eq!(ViewMode::List.label(), "List");
    assert_eq!(ViewMode::Compact.label(), "Compact");
    assert_eq!(ViewMode::all(), vec![ViewMode::Grid, ViewMode::List, ViewMode::Compact]);
    assert_eq!(ViewMode::default(), ViewMode::Grid);
}

#[test]
fn default_settings() {
    let s = Settings::default();
    assert!(!s.start_with_system);
    assert!(s.minimize_to_tray);
    assert!(!s.auto_restore_sessions);
    assert_eq!(s.theme, Theme::Dark);
    assert_eq!(s.view_mode, ViewMode::Grid);
    assert!(s.show_system_resources);
    assert_eq!(s.default_cpu_limit, 0);
    assert_eq!(s.default_ram_limit, 0);
    assert_eq!(s.default_network_limit, 0);
    assert_eq!(s.default_priority, 0);
    assert_eq!(s.staggered_launch_delay_ms, 1000);
    assert!(!s.default_auto_restart);
    assert_eq!(s.default_restart_delay_secs, 5);
    assert!(!s.enable_health_checks);
    assert_eq!(s.health_check_interval_secs, 30);
    assert_eq!(s.notification_level, NotificationLevel::Important);
    assert!(s.notification_sound);
    assert_eq!(s.data_directory, None);
    assert!(!s.debug_logging);
    assert_eq!(s.max_instances, 0);
    assert_eq!(s.monitor_interval_ms, 1000);
    assert_eq!(s.history_retention_days, 30);
    assert!(!s.sidebar_collapsed);
    assert_eq!(s.last_app_path, None);
    assert_eq!(s.window_position, None);
    assert_eq!(s.window_size, None);
}

#[test]
fn validate_brings_values_into_range() {
    let mut s = Settings::default();
    s.default_cpu_limit = 250;
    s.default_priority = -100;
    s.monitor_interval_ms = 5;
    s.health_check_interval_secs = 0;
    s.max_instances = 7;
    s.validate();
    assert_eq!(s.default_cpu_limit, 100);
    assert_eq!(s.default_priority, -20);
    assert_eq!(s.monitor_interval_ms, 100);
    assert_eq!(s.health_check_interval_secs, 5);
    assert_eq!(s.max_instances, 7);
    s.default_priority = 100;
    s.validate();
    assert_eq!(s.default_priority, 19);
}

#[test]
fn validate_leaves_valid_values_alone() {
    let mut s = Settings::default();
    s.default_cpu_limit = 100;
    s.default_priority = 19;
    s.monitor_interval_ms = 100;
    s.health_check_interval_secs = 5;
    s.validate();
    assert_eq!(s.default_cpu_limit, 100);
    assert_eq!(s.default_priority, 19);
    assert_eq!(s.monitor_interval_ms, 100);
    assert_eq!(s.health_check_interval_secs, 5);
    s.default_cpu_limit = 42;
    s.default_priority = -20;
    s.monitor_interval_ms = u32::MAX;
    s.health_check_interval_secs = 99;
    s.validate();
    assert_eq!(s.default_cpu_limit, 42);
    assert_eq!(s.default_priority, -20);
    assert_eq!(s.monitor_interval_ms, u32::MAX);
    assert_eq!(s.health_check_interval_secs, 99);
}

#[test]
fn default_resource_limits_take_the_four_defaults() {
    let mut s = Settings::default();
    assert!(!s.default_resource_limits().has_limits());
    s.default_cpu_limit = 30;
    s.default_ram_limit = 2048;
    s.default_network_limit = 500;
    s.default_priority = -3;
    let limits = s.default_resource_limits();
    assert_eq!(limits.cpu_percent, 30);
    assert_eq!(limits.memory_mb, 2048);
    assert_eq!(limits.network_kbps, 500);
    assert_eq!(limits.priority, -3);
    assert!(limits.cpu_affinity.is_empty());
    assert_eq!(limits.gpu_memory_mb, 0);
}

#[test]
fn a_chosen_data_directory_is_used_as_it_is() {
    let mut s = Settings::default();
    s.data_directory = Some("/srv/mi".to_string());
    assert_eq!(s.get_data_directory(), "/srv/mi");
    assert_eq!(s.data_directory_in(Some("/home/u/.local/share".to_string())), "/srv/mi");
    assert_eq!(s.get_instances_directory(), "/srv/mi/instances");
    assert_eq!(s.get_profiles_directory(), "/srv/mi/profiles");
    assert_eq!(s.get_logs_directory(), "/srv/mi/logs");
}

#[test]
fn the_default_data_directory_lies_under_the_user_data_directory() {
    let s = Settings::default();
    assert_eq!(
        s.data_directory_in(Some("/home/u/.local/share".to_string())),
        "/home/u/.local/share/MultiInstance"
    );
    assert_eq!(s.data_directory_in(None), "./MultiInstance");
    let base = s.get_data_directory();
    assert!(base.ends_with("MultiInstance"));
    assert!(base.len() > "MultiInstance".len());
    assert_eq!(s.get_instances_directory(), format!("{}/instances", base));
    assert_eq!(s.get_profiles_directory(), format!("{}/profiles", base));
    assert_eq!(s.get_logs_directory(), format!("{}/logs", base));
}

#[test]
fn cloned_settings_hold_the_same_values() {
    let mut s = Settings::default();
    s.data_directory = Some("/x".to_string());
    s.last_app_path = Some("/y".to_string());
    s.window_position = Some((1, -2));
    s.window_size = Some((800, 600));
    s.theme = Theme::Light;
    let copy = s.clone();
    assert_eq!(copy.data_directory, s.data_directory);
    assert_eq!(copy.last_app_path, s.last_app_path);
    assert_eq!(copy.window_position, Some((1, -2)));
    assert_eq!(copy.window_size, Some((800, 600)));
    assert_eq!(copy.theme, Theme::Light);
    assert_eq!(copy.monitor_interval_ms, 1000);
}

#[test]
fn history_is_forgotten_after_the_retention_days() {
    let mut s = Settings::default();
    let now = multi_instance::instance::Timestamp { secs: 10_000_000, nanos: 5 };
    assert_eq!(
        s.history_cutoff(now),
        Some(multi_instance::instance::Timestamp { secs: 10_000_000 - 30 * 86_400, nanos: 5 })
    );
    s.history_retention_days = 0;
    assert_eq!(s.history_cutoff(now), None);
    s.history_retention_days = 1;
    assert_eq!(
        s.history_cutoff(now),
        Some(multi_instance::instance::Timestamp { secs: 10_000_000 - 86_400, nanos: 5 })
    );
}
