use multi_instance::monitor::{
    find_processes_by_name, get_process_command, get_process_exe, processes_named, transfer_rate,
    NetworkCounters, ProcessDetail, ProcessName, ProcessSample, ResourceMonitor, SystemSample,
};

fn counters(name: &str, rx: u64, tx: u64) -> NetworkCounters {
    NetworkCounters { name: name.to_string(), rx_bytes: rx, tx_bytes: tx }
}

fn process(pid: u32, cpu: u32, memory: u64) -> ProcessSample {
    ProcessSample {
        pid,
        cpu_permille: cpu,
        memory_bytes: memory,
        virtual_memory_bytes: memory * 2,
        disk_read_bytes: 11,
        disk_write_bytes: 22,
    }
}

fn sample(networks: Vec<NetworkCounters>, processes: Vec<ProcessSample>) -> SystemSample {
    SystemSample {
        cpu_permille: 250,
        cpu_per_core: vec![100, 400],
        total_memory: 16_000,
        used_memory: 4_000,
        available_memory: 12_000,
        total_swap: 2_000,
        used_swap: 500,
        networks,
        cpu_name: "Test CPU".to_string(),
        uptime_secs: 3_600,
        processes,
    }
}

#[test]
fn the_first_refresh_polls_whenever_it_comes() {
    for first in [0u64, 1, 999, 1_000, 5_000, u64::MAX] {
        let mut monitor = ResourceMonitor::new(1000);
        assert_eq!(monitor.throttle.last_update_ms, None);
        assert!(monitor.refresh(first));
        assert_eq!(monitor.throttle.polls, 1);
        assert_eq!(monitor.throttle.last_update_ms, Some(first));
    }
}

#[test]
fn a_refresh_before_the_interval_has_passed_does_nothing() {
    let mut monitor = ResourceMonitor::new(1000);
    assert!(monitor.refresh(5_000));
    assert!(!monitor.refresh(5_000));
    assert!(!monitor.refresh(5_999));
    assert_eq!(monitor.throttle.polls, 1);
    assert_eq!(monitor.throttle.last_update_ms, Some(5_000));
    assert!(monitor.refresh(6_000));
    assert_eq!(monitor.throttle.polls, 2);
    assert_eq!(monitor.throttle.last_update_ms, Some(6_000));
}

#[test]
fn two_refreshes_within_the_interval_poll_exactly_once() {
    let mut monitor = ResourceMonitor::new(1000);
    assert!(monitor.refresh(10));
    assert!(!monitor.refresh(11));
    assert!(!monitor.refresh(1_009));
    assert_eq!(monitor.throttle.polls, 1);
    assert!(monitor.refresh(1_010));
    assert_eq!(monitor.throttle.polls, 2);
}

#[test]
fn a_clock_that_goes_backwards_counts_as_no_time_passed() {
    let mut monitor = ResourceMonitor::new(1000);
    assert!(monitor.refresh(5_000));
    assert!(!monitor.refresh(10));
    assert_eq!(monitor.throttle.polls, 1);
    let mut eager = ResourceMonitor::new(0);
    assert!(eager.refresh(5_000));
    assert!(eager.refresh(10));
    assert!(eager.refresh(10));
    assert_eq!(eager.throttle.polls, 3);
    assert_eq!(eager.throttle.last_update_ms, Some(10));
}

#[test]
fn the_poll_counter_stays_at_its_maximum() {
    let mut monitor = ResourceMonitor::new(0);
    monitor.throttle.polls = u64::MAX;
    assert!(monitor.refresh(1));
    assert_eq!(monitor.throttle.polls, u64::MAX);
}

#[test]
fn transfer_rate_is_delta_over_elapsed_time() {
    assert_eq!(transfer_rate(3_000, 1_000, 1_000), 2_000);
    assert_eq!(transfer_rate(3_000, 1_000, 500), 4_000);
    assert_eq!(transfer_rate(3_000, 1_000, 2_000), 1_000);
    assert_eq!(transfer_rate(1_001, 1_000, 3_000), 0);
    assert_eq!(transfer_rate(1_010, 1_000, 3_000), 3);
    assert_eq!(transfer_rate(5, 5, 100), 0);
    assert_eq!(transfer_rate(3_000, 1_000, 0), 0);
    assert_eq!(transfer_rate(1_000, 3_000, 1_000), 0);
    assert_eq!(transfer_rate(u64::MAX, 0, 1), u64::MAX);
    assert_eq!(transfer_rate(u64::MAX, 0, 1_000), u64::MAX);
    assert_eq!(transfer_rate(u64::MAX, 0, 2_000), u64::MAX / 2);
}

#[test]
fn a_new_monitor_knows_an_empty_system() {
    let monitor = ResourceMonitor::new(1000);
    let system = monitor.get_system_resources(10);
    assert_eq!(system.cpu_cores, 0);
    assert!(system.network_interfaces.is_empty());
    assert_eq!(system.total_memory, 0);
    assert_eq!(monitor.get_process_usage(1), None);
    assert!(!monitor.is_process_running(1));
    assert!(monitor.get_running_pids().is_empty());
}

#[test]
fn the_first_sample_of_an_interface_reports_rate_zero() {
    let mut monitor = ResourceMonitor::new(1000);
    monitor.store_sample(sample(vec![counters("eth0", 5_000, 7_000)], vec![]), 0);
    let system = monitor.get_system_resources(2_000);
    assert_eq!(system.network_interfaces.len(), 1);
    assert_eq!(system.network_interfaces[0].name, "eth0");
    assert_eq!(system.network_interfaces[0].rx_bytes, 5_000);
    assert_eq!(system.network_interfaces[0].tx_bytes, 7_000);
    assert_eq!(system.network_interfaces[0].rx_rate, 0);
    assert_eq!(system.network_interfaces[0].tx_rate, 0);
}

#[test]
fn later_samples_report_the_rate_against_the_previous_one() {
    let mut monitor = ResourceMonitor::new(1000);
    monitor.store_sample(sample(vec![counters("eth0", 5_000, 7_000)], vec![]), 1_000);
    assert_eq!(monitor.sampled_at_ms, 1_000);
    monitor.store_sample(
        sample(vec![counters("eth0", 9_000, 7_500), counters("wlan0", 100, 200)], vec![]),
        2_000,
    );
    assert_eq!(monitor.sampled_at_ms, 2_000);
    assert_eq!(monitor.last_network.len(), 1);
    assert_eq!(monitor.last_network[0].at_ms, 1_000);
    let system = monitor.get_system_resources(3_000);
    assert_eq!(system.network_interfaces.len(), 2);
    assert_eq!(system.network_interfaces[0].rx_rate, 2_000);
    assert_eq!(system.network_interfaces[0].tx_rate, 250);
    assert_eq!(system.network_interfaces[1].name, "wlan0");
    assert_eq!(system.network_interfaces[1].rx_rate, 0);
    assert_eq!(system.network_interfaces[1].tx_rate, 0);
    let at_once = monitor.get_system_resources(1_000);
    assert_eq!(at_once.network_interfaces[0].rx_rate, 0);
    let sooner = monitor.get_system_resources(2_000);
    assert_eq!(sooner.network_interfaces[0].rx_rate, 4_000);
}

#[test]
fn update_network_rates_takes_the_current_counters_as_the_baseline() {
    let mut monitor = ResourceMonitor::new(1000);
    monitor.store_sample(sample(vec![counters("eth0", 5_000, 7_000)], vec![]), 0);
    monitor.update_network_rates(500);
    assert_eq!(monitor.last_network.len(), 1);
    assert_eq!(monitor.last_network[0].name, "eth0");
    assert_eq!(monitor.last_network[0].rx_bytes, 5_000);
    assert_eq!(monitor.last_network[0].tx_bytes, 7_000);
    assert_eq!(monitor.last_network[0].at_ms, 500);
    let system = monitor.get_system_resources(1_500);
    assert_eq!(system.network_interfaces[0].rx_rate, 0);
    assert_eq!(system.network_interfaces[0].tx_rate, 0);
}

#[test]
fn system_resources_carry_the_sample() {
    let mut monitor = ResourceMonitor::new(1000);
    monitor.store_sample(sample(vec![], vec![]), 0);
    let system = monitor.get_system_resources(10);
    assert_eq!(system.cpu_permille, 250);
    assert_eq!(system.cpu_per_core, vec![100, 400]);
    assert_eq!(system.total_memory, 16_000);
    assert_eq!(system.used_memory, 4_000);
    assert_eq!(system.available_memory, 12_000);
    assert_eq!(system.total_swap, 2_000);
    assert_eq!(system.used_swap, 500);
    assert_eq!(system.cpu_cores, 2);
    assert_eq!(system.cpu_name, "Test CPU");
    assert_eq!(system.uptime_secs, 3_600);
    assert_eq!(system.memory_percent(), 250);
    assert_eq!(system.swap_percent(), 250);
    assert_eq!(monitor.cpu_count(), 2);
    assert_eq!(monitor.total_memory(), 16_000);
    assert_eq!(monitor.available_memory(), 12_000);
    assert_eq!(monitor.get_uptime(), 3_600);
}

#[test]
fn process_usage_comes_from_the_last_poll() {
    let mut monitor = ResourceMonitor::new(1000);
    monitor.store_sample(sample(vec![], vec![process(10, 125, 1_000), process(20, 0, 50)]), 0);
    let usage = monitor.get_process_usage(10).unwrap();
    assert_eq!(usage.cpu_permille, 125);
    assert_eq!(usage.memory_bytes, 1_000);
    assert_eq!(usage.virtual_memory_bytes, 2_000);
    assert_eq!(usage.disk_read_bytes, 11);
    assert_eq!(usage.disk_write_bytes, 22);
    assert_eq!(usage.network_rx_bytes, 0);
    assert_eq!(usage.network_tx_bytes, 0);
    assert_eq!(usage.network_rx_rate, 0);
    assert_eq!(usage.network_tx_rate, 0);
    assert_eq!(usage.open_files, 0);
    assert_eq!(usage.thread_count, 0);
    assert_eq!(usage.gpu_permille, 0);
    assert_eq!(usage.gpu_memory_bytes, 0);
    assert_eq!(monitor.get_process_usage(30), None);
    assert!(monitor.is_process_running(10));
    assert!(monitor.is_process_running(20));
    assert!(!monitor.is_process_running(30));
    assert_eq!(monitor.get_running_pids(), vec![10, 20]);
}

#[test]
fn a_pid_absent_from_the_last_poll_has_no_usage() {
    let mut monitor = ResourceMonitor::new(1000);
    monitor.store_sample(sample(vec![], vec![process(10, 1, 1)]), 0);
    assert!(monitor.get_process_usage(10).is_some());
    monitor.store_sample(sample(vec![], vec![process(11, 1, 1)]), 1_000);
    assert_eq!(monitor.get_process_usage(10), None);
    assert!(monitor.get_process_usage(11).is_some());
}

fn named(pid: u32, name: &str) -> ProcessName {
    ProcessName { pid, name: name.to_string() }
}

#[test]
fn processes_are_found_by_a_part_of_their_name_whatever_the_case() {
    let listing = vec![
        named(1, "Firefox"),
        named(2, "firefox-bin"),
        named(3, "chrome"),
        named(4, "FIREFOX Helper"),
        named(5, ""),
    ];
    assert_eq!(find_processes_by_name(&listing, "firefox"), vec![1, 2, 4]);
    assert_eq!(find_processes_by_name(&listing, "FireFox"), vec![1, 2, 4]);
    assert_eq!(find_processes_by_name(&listing, "helper"), vec![4]);
    assert_eq!(find_processes_by_name(&listing, "safari"), Vec::<u32>::new());
    assert_eq!(find_processes_by_name(&listing, ""), vec![1, 2, 3, 4, 5]);
    assert_eq!(find_processes_by_name(&Vec::new(), "x"), Vec::<u32>::new());
}

#[test]
fn processes_named_counts_the_letter_case() {
    let listing = vec![named(1, "Firefox"), named(2, "firefox-bin"), named(3, "fire")];
    assert_eq!(processes_named(&listing, "firefox"), vec![2]);
    assert_eq!(processes_named(&listing, "Fire"), vec![1]);
    assert_eq!(processes_named(&listing, "fire"), vec![2, 3]);
    assert_eq!(processes_named(&listing, "x"), vec![1, 2]);
    assert_eq!(processes_named(&listing, "z"), Vec::<u32>::new());
}

#[test]
fn command_line_and_executable_of_a_listed_process() {
    let listing = vec![
        ProcessDetail {
            pid: 5,
            command: vec!["/bin/app".to_string(), "--flag".to_string()],
            exe: Some("/bin/app".to_string()),
        },
        ProcessDetail { pid: 6, command: vec![], exe: None },
        ProcessDetail { pid: 5, command: vec!["later".to_string()], exe: None },
    ];
    assert_eq!(
        get_process_command(&listing, 5),
        Some(vec!["/bin/app".to_string(), "--flag".to_string()])
    );
    assert_eq!(get_process_exe(&listing, 5), Some("/bin/app".to_string()));
    assert_eq!(get_process_command(&listing, 6), Some(vec![]));
    assert_eq!(get_process_exe(&listing, 6), None);
    assert_eq!(get_process_command(&listing, 7), None);
    assert_eq!(get_process_exe(&listing, 7), None);
    assert_eq!(get_process_command(&Vec::new(), 5), None);
}
