use multi_instance::error::CoreError;
use multi_instance::instance::{Instance, InstanceConfig, InstanceId, InstanceStatus, Timestamp};
use multi_instance::platform::{
    BackgroundKind, OsFamily, PlatformError, PlatformOp, PlatformRequest, Signal,
};
use multi_instance::process::{
    apply_resource_limits, background_tasks, isolation_directories, setup_isolation_env,
    CheckProgress, CheckStep, LimitStep, ProcessManager, Progress, Step, Teardown, WaitOutcome,
};
use multi_instance::resource::{ResourceLimits, ResourceUsage, HIGH_PRIORITY_CLASS};

fn pair(k: &str, v: &str) -> (String, String) {
    (k.to_string(), v.to_string())
}

fn manager(family: OsFamily) -> ProcessManager {
    ProcessManager::new("/data/instances".to_string(), family)
}

fn fresh(id: u128) -> Instance {
    Instance::with_identity(
        InstanceId(id),
        InstanceConfig::new("App".to_string(), "/opt/app/bin/app".to_string()),
        Timestamp { secs: 1, nanos: 0 },
    )
}

fn started(pm: &mut ProcessManager, id: u128, pid: u32) -> Instance {
    let mut instance = fresh(id);
    pm.spawn(&mut instance, Ok(pid)).unwrap();
    instance
}

const NOTHING: Teardown = Teardown { drop_handle: false, close_job: None };

#[test]
fn isolation_directories_per_system() {
    assert_eq!(
        isolation_directories("/d", OsFamily::Windows),
        vec!["/d", "/d/AppData/Roaming", "/d/AppData/Local"]
    );
    assert_eq!(
        isolation_directories("/d", OsFamily::MacOs),
        vec![
            "/d",
            "/d/Library/Preferences",
            "/d/Library/Caches",
            "/d/Library/Application Support"
        ]
    );
    assert_eq!(isolation_directories("/d", OsFamily::Other), vec!["/d"]);
}

#[test]
fn isolation_environment_per_system() {
    assert_eq!(
        setup_isolation_env("/d", OsFamily::Windows),
        vec![
            pair("APPDATA", "/d/AppData/Roaming"),
            pair("LOCALAPPDATA", "/d/AppData/Local"),
            pair("USERPROFILE", "/d"),
        ]
    );
    assert_eq!(
        setup_isolation_env("/d", OsFamily::MacOs),
        vec![
            pair("HOME", "/d"),
            pair("XDG_DATA_HOME", "/d/Library"),
            pair("XDG_CONFIG_HOME", "/d/Library/Preferences"),
            pair("XDG_CACHE_HOME", "/d/Library/Caches"),
        ]
    );
    assert_eq!(
        setup_isolation_env("/d", OsFamily::Other),
        vec![
            pair("HOME", "/d"),
            pair("XDG_DATA_HOME", "/d/.local/share"),
            pair("XDG_CONFIG_HOME", "/d/.config"),
            pair("XDG_CACHE_HOME", "/d/.cache"),
        ]
    );
}

#[test]
fn data_directory_is_the_configured_one_or_named_after_the_id() {
    let pm = manager(OsFamily::MacOs);
    let id = InstanceId(0x0123_4567_89ab_cdef_0123_4567_89ab_cdef);
    let plain = InstanceConfig::default();
    assert_eq!(
        pm.get_instance_data_dir(id, &plain),
        "/data/instances/01234567-89ab-cdef-0123-456789abcdef"
    );
    let custom = InstanceConfig::default().with_data_directory("/custom".to_string());
    assert_eq!(pm.get_instance_data_dir(id, &custom), "/custom");
    assert_eq!(
        pm.cleanup_instance_data(id),
        "/data/instances/01234567-89ab-cdef-0123-456789abcdef"
    );
}

#[test]
fn plan_spawn_rejects_a_missing_executable() {
    let pm = manager(OsFamily::MacOs);
    let instance = fresh(1);
    assert_eq!(pm.plan_spawn(&instance, false).err(), Some(CoreError::NotFound));
    assert_eq!(pm.plan_spawn_in(&instance, false, None).err(), Some(CoreError::NotFound));
}

#[test]
fn plan_spawn_rejects_a_live_instance() {
    let mut pm = manager(OsFamily::MacOs);
    let instance = started(&mut pm, 1, 100);
    assert_eq!(pm.plan_spawn(&instance, true).err(), Some(CoreError::InvalidState));
    assert_eq!(pm.plan_spawn(&instance, false).err(), Some(CoreError::InvalidState));
}

#[test]
fn plan_spawn_builds_the_launch_request() {
    let pm = manager(OsFamily::MacOs);
    let mut instance = fresh(7);
    instance.config.arguments = vec!["--flag".to_string(), "value".to_string()];
    instance.config.environment = vec![pair("A", "1"), pair("HOME", "/override")];
    let request = pm.plan_spawn(&instance, true).unwrap();
    assert_eq!(request.program, "/opt/app/bin/app");
    assert_eq!(request.arguments, vec!["--flag", "value"]);
    assert_eq!(request.working_directory, Some("/opt/app/bin".to_string()));
    assert_eq!(request.environment, vec![pair("A", "1"), pair("HOME", "/override")]);
    let data = "/data/instances/00000000-0000-0000-0000-000000000007";
    assert_eq!(
        request.directories,
        vec![
            data.to_string(),
            format!("{}/Library/Preferences", data),
            format!("{}/Library/Caches", data),
            format!("{}/Library/Application Support", data),
        ]
    );
    assert!(request.detached);
    assert!(request.null_streams);
}

#[test]
fn explicit_working_directory_wins_over_the_executable_parent() {
    let pm = manager(OsFamily::Other);
    let mut instance = fresh(7);
    instance.config.working_directory = Some("/work".to_string());
    let request = pm.plan_spawn(&instance, true).unwrap();
    assert_eq!(request.working_directory, Some("/work".to_string()));
    let inner = pm.plan_spawn_in(&instance, true, Some("/elsewhere".to_string())).unwrap();
    assert_eq!(inner.working_directory, Some("/work".to_string()));
    instance.config.working_directory = None;
    let fallback = pm.plan_spawn_in(&instance, true, Some("/elsewhere".to_string())).unwrap();
    assert_eq!(fallback.working_directory, Some("/elsewhere".to_string()));
    let nothing = pm.plan_spawn_in(&instance, true, None).unwrap();
    assert_eq!(nothing.working_directory, None);
}

#[test]
fn isolation_variables_come_before_the_configured_ones() {
    let pm = manager(OsFamily::Other);
    let mut instance = fresh(7);
    instance.config.use_environment_isolation = true;
    instance.config.data_directory = Some("/iso".to_string());
    instance.config.environment = vec![pair("HOME", "/mine")];
    let request = pm.plan_spawn(&instance, true).unwrap();
    assert_eq!(
        request.environment,
        vec![
            pair("HOME", "/iso"),
            pair("XDG_DATA_HOME", "/iso/.local/share"),
            pair("XDG_CONFIG_HOME", "/iso/.config"),
            pair("XDG_CACHE_HOME", "/iso/.cache"),
            pair("HOME", "/mine"),
        ]
    );
    assert_eq!(request.directories, vec!["/iso"]);
    instance.config.bypass_single_instance = false;
    let plain = pm.plan_spawn(&instance, true).unwrap();
    assert_eq!(plain.environment, vec![pair("HOME", "/mine")]);
}

#[test]
fn spawn_marks_the_instance_starting_and_tracks_it() {
    let mut pm = manager(OsFamily::MacOs);
    let mut instance = fresh(1);
    let post = pm.spawn(&mut instance, Ok(4321)).unwrap();
    assert_eq!(post.pid, 4321);
    assert!(post.limits.is_empty());
    assert!(post.background.is_empty());
    assert_eq!(instance.status, InstanceStatus::Starting);
    assert_eq!(instance.pid, Some(4321));
    assert!(instance.started_at.is_some());
    assert_eq!(instance.stopped_at, None);
    assert!(pm.has_child(InstanceId(1)));
    assert_eq!(pm.running_count(), 1);
}

#[test]
fn a_failed_launch_changes_nothing() {
    let mut pm = manager(OsFamily::MacOs);
    let mut instance = fresh(1);
    let r = pm.spawn(&mut instance, Err(PlatformError::OperationFailed(13)));
    assert_eq!(r.err(), Some(CoreError::Platform(PlatformError::OperationFailed(13))));
    assert_eq!(instance.status, InstanceStatus::Stopped);
    assert_eq!(instance.pid, None);
    assert!(!pm.has_child(InstanceId(1)));
    assert_eq!(pm.running_count(), 0);
    let r = pm.spawn(
        &mut instance,
        Err(PlatformError::Unsupported(PlatformOp::Terminate, OsFamily::Other)),
    );
    assert_eq!(r.err(), Some(CoreError::Unsupported(PlatformOp::Terminate, OsFamily::Other)));
}

#[test]
fn a_launch_reported_for_a_live_instance_is_refused() {
    let mut pm = manager(OsFamily::MacOs);
    let mut instance = started(&mut pm, 1, 100);
    let r = pm.spawn(&mut instance, Ok(200));
    assert_eq!(r.err(), Some(CoreError::InvalidState));
    assert_eq!(instance.pid, Some(100));
    assert_eq!(pm.running_count(), 1);
}

#[test]
fn limits_to_apply_after_a_launch() {
    let limits = ResourceLimits::default()
        .with_cpu_affinity(vec![0, 1])
        .with_priority(5)
        .with_memory_limit(100);
    assert_eq!(
        apply_resource_limits(OsFamily::Windows, 9, &limits),
        vec![
            LimitStep {
                op: PlatformOp::SetCpuAffinity,
                request: PlatformRequest::AffinityMask { pid: 9, mask: 3 }
            },
            LimitStep {
                op: PlatformOp::SetPriority,
                request: PlatformRequest::PriorityClass { pid: 9, class: HIGH_PRIORITY_CLASS }
            },
            LimitStep {
                op: PlatformOp::SetMemoryLimit,
                request: PlatformRequest::JobMemoryLimit { pid: 9, bytes: 100 * 1024 * 1024 }
            },
        ]
    );
    assert_eq!(
        apply_resource_limits(OsFamily::MacOs, 9, &limits),
        vec![LimitStep {
            op: PlatformOp::SetPriority,
            request: PlatformRequest::Niceness { pid: 9, value: 5 }
        }]
    );
    assert!(apply_resource_limits(OsFamily::Other, 9, &limits).is_empty());
    assert!(apply_resource_limits(OsFamily::Windows, 9, &ResourceLimits::default()).is_empty());
    let cpu_only = ResourceLimits::default().with_cpu_limit(50).with_network_limit(10);
    assert!(apply_resource_limits(OsFamily::Windows, 9, &cpu_only).is_empty());
}

#[test]
fn background_work_exists_only_on_the_handle_backend() {
    let mut config = InstanceConfig::default();
    config.hide_from_taskbar = true;
    let tasks = background_tasks(OsFamily::Windows, 5, &config);
    assert_eq!(tasks.len(), 2);
    assert_eq!(tasks[0].kind, BackgroundKind::CloseSingletonHandles);
    assert_eq!(tasks[0].pid, 5);
    assert_eq!(tasks[0].settle_delay_ms, 3000);
    assert_eq!(tasks[1].kind, BackgroundKind::HideFromTaskbar);
    assert_eq!(tasks[1].settle_delay_ms, 1000);
    assert!(background_tasks(OsFamily::MacOs, 5, &config).is_empty());
    assert!(background_tasks(OsFamily::Other, 5, &config).is_empty());
    config.bypass_single_instance = false;
    config.hide_from_taskbar = false;
    assert!(background_tasks(OsFamily::Windows, 5, &config).is_empty());
    config.hide_from_taskbar = true;
    let only_hide = background_tasks(OsFamily::Windows, 5, &config);
    assert_eq!(only_hide.len(), 1);
    assert_eq!(only_hide[0].kind, BackgroundKind::HideFromTaskbar);
}

#[test]
fn a_memory_cap_that_took_effect_is_remembered_until_the_process_is_gone() {
    let mut pm = manager(OsFamily::Windows);
    let mut instance = started(&mut pm, 1, 50);
    let step = LimitStep {
        op: PlatformOp::SetMemoryLimit,
        request: PlatformRequest::JobMemoryLimit { pid: 50, bytes: 1 },
    };
    assert_eq!(pm.record_limit(&step, Ok(())), Ok(()));
    let done = pm.stop(&mut instance, Progress::Tried(Ok(())));
    assert_eq!(done, Step::Complete(Teardown { drop_handle: true, close_job: Some(50) }));
    assert!(!pm.cleanup_job_handle(50));
}

#[test]
fn a_failed_memory_cap_is_swallowed_and_not_remembered() {
    let mut pm = manager(OsFamily::Windows);
    let step = LimitStep {
        op: PlatformOp::SetMemoryLimit,
        request: PlatformRequest::JobMemoryLimit { pid: 50, bytes: 1 },
    };
    assert_eq!(pm.record_limit(&step, Err(PlatformError::OperationFailed(5))), Ok(()));
    assert!(!pm.cleanup_job_handle(50));
    let affinity = LimitStep {
        op: PlatformOp::SetCpuAffinity,
        request: PlatformRequest::AffinityMask { pid: 50, mask: 1 },
    };
    assert_eq!(
        pm.record_limit(&affinity, Err(PlatformError::OperationFailed(5))),
        Err(PlatformError::OperationFailed(5))
    );
    assert_eq!(pm.record_limit(&affinity, Ok(())), Ok(()));
    assert!(!pm.cleanup_job_handle(50));
}

#[test]
fn job_handles_are_stored_and_cleaned_up() {
    let mut pm = manager(OsFamily::Windows);
    assert!(!pm.cleanup_job_handle(1));
    pm.store_job_handle(1);
    pm.store_job_handle(2);
    assert!(pm.cleanup_job_handle(1));
    assert!(!pm.cleanup_job_handle(1));
    assert!(pm.cleanup_job_handle(2));
}

#[test]
fn stop_tries_gracefully_first() {
    let mut pm = manager(OsFamily::MacOs);
    let mut instance = started(&mut pm, 1, 100);
    assert_eq!(
        pm.stop(&mut instance, Progress::Start),
        Step::Perform(PlatformRequest::Signal { pid: 100, signal: Signal::Terminate })
    );
    assert_eq!(instance.status, InstanceStatus::Starting);
    assert!(pm.has_child(InstanceId(1)));
    assert_eq!(
        pm.stop(&mut instance, Progress::Tried(Ok(()))),
        Step::Complete(Teardown { drop_handle: true, close_job: None })
    );
    assert_eq!(instance.status, InstanceStatus::Stopped);
    assert!(instance.stopped_at.is_some());
    assert_eq!(instance.pid, Some(100));
    assert_eq!(instance.resource_usage, ResourceUsage::default());
    assert!(!pm.has_child(InstanceId(1)));
}

#[test]
fn stop_escalates_to_kill_when_the_graceful_end_fails() {
    let mut pm = manager(OsFamily::MacOs);
    let mut instance = started(&mut pm, 1, 100);
    assert_eq!(
        pm.stop(&mut instance, Progress::Tried(Err(PlatformError::OperationFailed(1)))),
        Step::Escalate(PlatformRequest::Signal { pid: 100, signal: Signal::Kill })
    );
    assert_eq!(instance.status, InstanceStatus::Starting);
    assert_eq!(
        pm.stop(&mut instance, Progress::Forced(Ok(()))),
        Step::Complete(Teardown { drop_handle: true, close_job: None })
    );
    assert_eq!(instance.status, InstanceStatus::Stopped);
}

#[test]
fn stop_fails_only_when_the_kill_fails_too() {
    let mut pm = manager(OsFamily::MacOs);
    let mut instance = started(&mut pm, 1, 100);
    assert_eq!(
        pm.stop(&mut instance, Progress::Forced(Err(PlatformError::OperationFailed(3)))),
        Step::Failed(CoreError::Platform(PlatformError::OperationFailed(3)))
    );
    assert_eq!(instance.status, InstanceStatus::Starting);
    assert!(pm.has_child(InstanceId(1)));
}

#[test]
fn stop_without_a_backend_is_unsupported() {
    let mut pm = manager(OsFamily::Other);
    let mut instance = started(&mut pm, 1, 100);
    assert_eq!(
        pm.stop(&mut instance, Progress::Start),
        Step::Failed(CoreError::Unsupported(PlatformOp::Kill, OsFamily::Other))
    );
    assert_eq!(instance.status, InstanceStatus::Starting);
}

#[test]
fn stop_on_the_handle_backend_ends_the_process_with_code_zero() {
    let mut pm = manager(OsFamily::Windows);
    let mut instance = started(&mut pm, 1, 100);
    assert_eq!(
        pm.stop(&mut instance, Progress::Start),
        Step::Perform(PlatformRequest::EndProcess { pid: 100, exit_code: 0 })
    );
    assert_eq!(
        pm.stop(&mut instance, Progress::Tried(Err(PlatformError::OpenFailed))),
        Step::Escalate(PlatformRequest::EndProcess { pid: 100, exit_code: 1 })
    );
}

#[test]
fn commands_on_an_instance_that_is_not_live_are_no_ops() {
    let mut pm = manager(OsFamily::MacOs);
    let mut instance = fresh(1);
    for progress in [Progress::Start, Progress::Tried(Ok(())), Progress::Forced(Ok(()))] {
        assert_eq!(pm.stop(&mut instance, progress), Step::NotNeeded);
        assert_eq!(pm.kill(&mut instance, progress), Step::NotNeeded);
        assert_eq!(pm.pause(&mut instance, progress), Step::NotNeeded);
        assert_eq!(pm.resume(&mut instance, progress), Step::NotNeeded);
    }
    assert_eq!(instance.status, InstanceStatus::Stopped);
    assert_eq!(instance.stopped_at, None);
    let mut stopped = started(&mut pm, 2, 10);
    pm.stop(&mut stopped, Progress::Tried(Ok(())));
    let when = stopped.stopped_at;
    assert_eq!(pm.stop(&mut stopped, Progress::Start), Step::NotNeeded);
    assert_eq!(pm.kill(&mut stopped, Progress::Start), Step::NotNeeded);
    assert_eq!(stopped.stopped_at, when);
}

#[test]
fn a_live_instance_without_a_pid_is_stopped_without_a_signal() {
    let mut pm = manager(OsFamily::MacOs);
    let mut instance = fresh(1);
    instance.status = InstanceStatus::Running;
    assert_eq!(pm.stop(&mut instance, Progress::Start), Step::Complete(NOTHING));
    assert_eq!(instance.status, InstanceStatus::Stopped);
    instance.status = InstanceStatus::Running;
    assert_eq!(pm.kill(&mut instance, Progress::Start), Step::Complete(NOTHING));
    instance.status = InstanceStatus::Running;
    assert_eq!(pm.pause(&mut instance, Progress::Start), Step::NotNeeded);
    assert_eq!(pm.resume(&mut instance, Progress::Start), Step::NotNeeded);
    assert_eq!(instance.status, InstanceStatus::Running);
}

#[test]
fn kill_is_forceful_and_has_no_fallback() {
    let mut pm = manager(OsFamily::MacOs);
    let mut instance = started(&mut pm, 1, 100);
    assert_eq!(
        pm.kill(&mut instance, Progress::Start),
        Step::Perform(PlatformRequest::Signal { pid: 100, signal: Signal::Kill })
    );
    assert_eq!(
        pm.kill(&mut instance, Progress::Tried(Err(PlatformError::OperationFailed(1)))),
        Step::Failed(CoreError::Platform(PlatformError::OperationFailed(1)))
    );
    assert_eq!(instance.status, InstanceStatus::Starting);
    assert_eq!(
        pm.kill(&mut instance, Progress::Tried(Ok(()))),
        Step::Complete(Teardown { drop_handle: true, close_job: None })
    );
    assert_eq!(instance.status, InstanceStatus::Stopped);
    assert!(!pm.has_child(InstanceId(1)));
}

#[test]
fn pause_and_resume_switch_between_running_and_paused() {
    let mut pm = manager(OsFamily::MacOs);
    let mut instance = started(&mut pm, 1, 100);
    instance.mark_running();
    assert_eq!(
        pm.pause(&mut instance, Progress::Start),
        Step::Perform(PlatformRequest::Signal { pid: 100, signal: Signal::Stop })
    );
    assert_eq!(instance.status, InstanceStatus::Running);
    assert_eq!(pm.pause(&mut instance, Progress::Tried(Ok(()))), Step::Complete(NOTHING));
    assert_eq!(instance.status, InstanceStatus::Paused);
    assert!(pm.has_child(InstanceId(1)));
    assert_eq!(
        pm.resume(&mut instance, Progress::Start),
        Step::Perform(PlatformRequest::Signal { pid: 100, signal: Signal::Continue })
    );
    assert_eq!(
        pm.resume(&mut instance, Progress::Tried(Err(PlatformError::OperationFailed(2)))),
        Step::Failed(CoreError::Platform(PlatformError::OperationFailed(2)))
    );
    assert_eq!(instance.status, InstanceStatus::Paused);
    assert_eq!(pm.resume(&mut instance, Progress::Tried(Ok(()))), Step::Complete(NOTHING));
    assert_eq!(instance.status, InstanceStatus::Running);
}

#[test]
fn pause_on_the_handle_backend_suspends_every_thread() {
    let mut pm = manager(OsFamily::Windows);
    let mut instance = started(&mut pm, 1, 100);
    assert_eq!(
        pm.pause(&mut instance, Progress::Start),
        Step::Perform(PlatformRequest::SuspendThreads { pid: 100 })
    );
    assert_eq!(
        pm.resume(&mut instance, Progress::Start),
        Step::Perform(PlatformRequest::ResumeThreads { pid: 100 })
    );
    let mut other = manager(OsFamily::Other);
    let mut orphan = started(&mut other, 2, 5);
    assert_eq!(
        other.pause(&mut orphan, Progress::Start),
        Step::Failed(CoreError::Unsupported(PlatformOp::Suspend, OsFamily::Other))
    );
}

#[test]
fn a_check_polls_the_handle_when_one_is_held() {
    let mut pm = manager(OsFamily::MacOs);
    let mut instance = started(&mut pm, 1, 100);
    assert_eq!(pm.check_process(&mut instance, CheckProgress::Start), CheckStep::WaitOnHandle);
    assert_eq!(instance.status, InstanceStatus::Starting);
}

#[test]
fn a_check_probes_the_pid_when_no_handle_is_held() {
    let mut pm = manager(OsFamily::MacOs);
    let mut instance = started(&mut pm, 1, 100);
    pm.remove_child(InstanceId(1));
    assert_eq!(
        pm.check_process(&mut instance, CheckProgress::Start),
        CheckStep::Probe(PlatformRequest::Signal { pid: 100, signal: Signal::Probe })
    );
    assert_eq!(
        pm.check_process(&mut instance, CheckProgress::Probed(Ok(0))),
        CheckStep::Done { alive: true, teardown: NOTHING }
    );
    assert_eq!(
        pm.check_process(&mut instance, CheckProgress::Probed(Err(PlatformError::OperationFailed(3)))),
        CheckStep::Done { alive: false, teardown: NOTHING }
    );
    assert_eq!(instance.status, InstanceStatus::Starting);
    let mut never = fresh(2);
    assert_eq!(
        pm.check_process(&mut never, CheckProgress::Start),
        CheckStep::Done { alive: false, teardown: NOTHING }
    );
    let mut other = manager(OsFamily::Other);
    let mut untracked = started(&mut other, 3, 9);
    other.remove_child(InstanceId(3));
    assert_eq!(
        other.check_process(&mut untracked, CheckProgress::Start),
        CheckStep::Done { alive: false, teardown: NOTHING }
    );
}

#[test]
fn first_confirmed_liveness_turns_starting_into_running() {
    let mut pm = manager(OsFamily::MacOs);
    let mut instance = started(&mut pm, 1, 100);
    assert_eq!(instance.status, InstanceStatus::Starting);
    assert_eq!(
        pm.check_process(&mut instance, CheckProgress::Waited(WaitOutcome::StillRunning)),
        CheckStep::Done { alive: true, teardown: NOTHING }
    );
    assert_eq!(instance.status, InstanceStatus::Running);
    assert_eq!(instance.pid, Some(100));
    instance.mark_paused();
    pm.check_process(&mut instance, CheckProgress::Waited(WaitOutcome::StillRunning));
    assert_eq!(instance.status, InstanceStatus::Paused);
}

#[test]
fn a_clean_exit_is_a_stop_with_no_error() {
    let mut pm = manager(OsFamily::MacOs);
    let mut instance = started(&mut pm, 1, 100);
    let step = pm.check_process(
        &mut instance,
        CheckProgress::Waited(WaitOutcome::Exited {
            success: true,
            status: "exit status: 0".to_string(),
        }),
    );
    assert_eq!(
        step,
        CheckStep::Done { alive: false, teardown: Teardown { drop_handle: true, close_job: None } }
    );
    assert_eq!(instance.status, InstanceStatus::Stopped);
    assert_eq!(instance.last_error, None);
    assert!(instance.stopped_at.is_some());
    assert!(!pm.has_child(InstanceId(1)));
}

#[test]
fn an_abnormal_exit_is_a_crash_with_the_exit_detail() {
    let mut pm = manager(OsFamily::Windows);
    let mut instance = started(&mut pm, 1, 100);
    pm.store_job_handle(100);
    let step = pm.check_process(
        &mut instance,
        CheckProgress::Waited(WaitOutcome::Exited {
            success: false,
            status: "exit status: 3".to_string(),
        }),
    );
    assert_eq!(
        step,
        CheckStep::Done {
            alive: false,
            teardown: Teardown { drop_handle: true, close_job: Some(100) }
        }
    );
    assert_eq!(instance.status, InstanceStatus::Crashed);
    assert_eq!(
        instance.last_error,
        Some("Process exited with status: exit status: 3".to_string())
    );
    assert_eq!(instance.resource_usage, ResourceUsage::default());
    assert!(!pm.has_child(InstanceId(1)));
    assert!(!pm.cleanup_job_handle(100));
}

#[test]
fn a_failed_wait_is_a_crash_with_the_failure() {
    let mut pm = manager(OsFamily::MacOs);
    let mut instance = started(&mut pm, 1, 100);
    let step = pm.check_process(
        &mut instance,
        CheckProgress::Waited(WaitOutcome::Failed("no child processes".to_string())),
    );
    assert_eq!(
        step,
        CheckStep::Done { alive: false, teardown: Teardown { drop_handle: true, close_job: None } }
    );
    assert_eq!(instance.status, InstanceStatus::Crashed);
    assert_eq!(instance.last_error, Some("no child processes".to_string()));
}

#[test]
fn children_are_counted_and_forgotten() {
    let mut pm = manager(OsFamily::MacOs);
    assert_eq!(pm.running_count(), 0);
    let _a = started(&mut pm, 1, 10);
    let _b = started(&mut pm, 2, 20);
    assert_eq!(pm.running_count(), 2);
    assert!(pm.has_child(InstanceId(1)));
    assert!(!pm.has_child(InstanceId(3)));
    pm.remove_child(InstanceId(1));
    pm.remove_child(InstanceId(3));
    assert_eq!(pm.running_count(), 1);
    assert!(!pm.has_child(InstanceId(1)));
}

#[test]
fn a_process_id_that_no_signal_can_address_is_never_signalled() {
    let mut pm = manager(OsFamily::MacOs);
    let mut instance = started(&mut pm, 1, 0);
    assert_eq!(
        pm.stop(&mut instance, Progress::Start),
        Step::Failed(CoreError::Platform(PlatformError::OpenFailed))
    );
    assert_eq!(
        pm.kill(&mut instance, Progress::Start),
        Step::Failed(CoreError::Platform(PlatformError::OpenFailed))
    );
    assert_eq!(
        pm.pause(&mut instance, Progress::Start),
        Step::Failed(CoreError::Platform(PlatformError::OpenFailed))
    );
    assert_eq!(instance.status, InstanceStatus::Starting);
    pm.remove_child(InstanceId(1));
    assert_eq!(
        pm.check_process(&mut instance, CheckProgress::Start),
        CheckStep::Done { alive: false, teardown: NOTHING }
    );
    let limits = ResourceLimits::default().with_priority(5);
    assert!(apply_resource_limits(OsFamily::MacOs, 0, &limits).is_empty());
    assert!(apply_resource_limits(OsFamily::MacOs, u32::MAX, &limits).is_empty());
    assert_eq!(apply_resource_limits(OsFamily::MacOs, 1, &limits).len(), 1);
}
