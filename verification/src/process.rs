//! The process manager: which instances have a live process handle, how a
//! launch is put together, and how each lifecycle command proceeds.
//!
//! The manager decides; the caller acts. A command is called with what has
//! happened so far and answers with the next primitive to carry out, or with
//! its result once nothing is left to do.

use vstd::prelude::*;
use std::collections::HashSet;
use crate::error::CoreError;
use crate::instance::{
    Instance, InstanceConfig, InstanceConfigView, InstanceId, InstanceStatus,
    InstanceView,
};
use crate::platform::{
    BackgroundKind, BackgroundTask, OsFamily, PlatformError, PlatformOp, PlatformRequest,
    SINGLETON_SETTLE_MS, TASKBAR_SETTLE_MS,
};
use crate::resource::ResourceLimitsView;
use crate::text::{child_path, clone_text_pairs, clone_texts, hyphenated_text, join_path};

verus! {

/// Takes the directory that holds a file, by `std::path::Path::parent`. What
/// counts as a separator depends on the operating system, so nothing is
/// claimed of the result.
#[verifier::external_body]
fn parent_directory(path: &str) -> (parent: Option<String>) {
    std::path::Path::new(path).parent().and_then(|p| p.to_str()).map(|p| p.to_string())
}

/// The directories that a private data directory needs on `family`, the data
/// directory itself first.
pub open spec fn isolation_directories_of(data_dir: Seq<char>, family: OsFamily) -> Seq<Seq<char>> {
    match family {
        OsFamily::Windows => seq![
            data_dir,
            child_path(child_path(data_dir, "AppData"@), "Roaming"@),
            child_path(child_path(data_dir, "AppData"@), "Local"@),
        ],
        OsFamily::MacOs => seq![
            data_dir,
            child_path(child_path(data_dir, "Library"@), "Preferences"@),
            child_path(child_path(data_dir, "Library"@), "Caches"@),
            child_path(child_path(data_dir, "Library"@), "Application Support"@),
        ],
        OsFamily::Other => seq![data_dir],
    }
}

/// The environment variables that point an application at a private data
/// directory on `family`: its home and application-data locations.
pub open spec fn isolation_env_of(data_dir: Seq<char>, family: OsFamily) -> Seq<
    (Seq<char>, Seq<char>),
> {
    match family {
        OsFamily::Windows => seq![
            ("APPDATA"@, child_path(child_path(data_dir, "AppData"@), "Roaming"@)),
            ("LOCALAPPDATA"@, child_path(child_path(data_dir, "AppData"@), "Local"@)),
            ("USERPROFILE"@, data_dir),
        ],
        OsFamily::MacOs => seq![
            ("HOME"@, data_dir),
            ("XDG_DATA_HOME"@, child_path(data_dir, "Library"@)),
            ("XDG_CONFIG_HOME"@, child_path(child_path(data_dir, "Library"@), "Preferences"@)),
            ("XDG_CACHE_HOME"@, child_path(child_path(data_dir, "Library"@), "Caches"@)),
        ],
        OsFamily::Other => seq![
            ("HOME"@, data_dir),
            ("XDG_DATA_HOME"@, child_path(child_path(data_dir, ".local"@), "share"@)),
            ("XDG_CONFIG_HOME"@, child_path(data_dir, ".config"@)),
            ("XDG_CACHE_HOME"@, child_path(data_dir, ".cache"@)),
        ],
    }
}

/// Lists the directories that a private data directory needs on `family`.
pub fn isolation_directories(data_dir: &str, family: OsFamily) -> (r: Vec<String>)
    ensures
        r.deep_view() == isolation_directories_of(data_dir@, family),
{
    let mut r: Vec<String> = Vec::new();
    r.push(String::from_str(data_dir));
    match family {
        OsFamily::Windows => {
            let app_data = join_path(data_dir, "AppData");
            r.push(join_path(app_data.as_str(), "Roaming"));
            r.push(join_path(app_data.as_str(), "Local"));
        },
        OsFamily::MacOs => {
            let library = join_path(data_dir, "Library");
            r.push(join_path(library.as_str(), "Preferences"));
            r.push(join_path(library.as_str(), "Caches"));
            r.push(join_path(library.as_str(), "Application Support"));
        },
        OsFamily::Other => {},
    }
    assert(r.deep_view() =~= isolation_directories_of(data_dir@, family));
    r
}

/// Builds the environment variables that point an application at a private
/// data directory on `family`.
pub fn setup_isolation_env(data_dir: &str, family: OsFamily) -> (r: Vec<(String, String)>)
    ensures
        r.deep_view() == isolation_env_of(data_dir@, family),
{
    let mut r: Vec<(String, String)> = Vec::new();
    match family {
        OsFamily::Windows => {
            let app_data = join_path(data_dir, "AppData");
            r.push((String::from_str("APPDATA"), join_path(app_data.as_str(), "Roaming")));
            r.push((String::from_str("LOCALAPPDATA"), join_path(app_data.as_str(), "Local")));
            r.push((String::from_str("USERPROFILE"), String::from_str(data_dir)));
        },
        OsFamily::MacOs => {
            let library = join_path(data_dir, "Library");
            r.push((String::from_str("HOME"), String::from_str(data_dir)));
            r.push((String::from_str("XDG_DATA_HOME"), join_path(data_dir, "Library")));
            r.push(
                (String::from_str("XDG_CONFIG_HOME"), join_path(library.as_str(), "Preferences")),
            );
            r.push((String::from_str("XDG_CACHE_HOME"), join_path(library.as_str(), "Caches")));
        },
        OsFamily::Other => {
            let local = join_path(data_dir, ".local");
            r.push((String::from_str("HOME"), String::from_str(data_dir)));
            r.push((String::from_str("XDG_DATA_HOME"), join_path(local.as_str(), "share")));
            r.push((String::from_str("XDG_CONFIG_HOME"), join_path(data_dir, ".config")));
            r.push((String::from_str("XDG_CACHE_HOME"), join_path(data_dir, ".cache")));
        },
    }
    assert(r.deep_view() =~= isolation_env_of(data_dir@, family));
    r
}

/// Everything the caller needs to launch a process.
#[derive(Debug)]
pub struct LaunchRequest {
    /// The executable to run.
    pub program: String,
    /// Its command-line arguments.
    pub arguments: Vec<String>,
    /// The directory to run it in; the launcher's own when absent.
    pub working_directory: Option<String>,
    /// Environment variables to set on top of the launcher's own, in order: a
    /// later entry overrides an earlier one of the same name.
    pub environment: Vec<(String, String)>,
    /// Directories to create before the launch; a failure to create one
    /// fails the launch.
    pub directories: Vec<String>,
    /// Whether the child leaves the launcher's process group and session, so
    /// that the launcher's end does not touch it. Always set.
    pub detached: bool,
    /// Whether the child's standard streams go to the null device. Always
    /// set.
    pub null_streams: bool,
}

/// What a `LaunchRequest` holds, as plain values.
pub struct LaunchRequestView {
    pub program: Seq<char>,
    pub arguments: Seq<Seq<char>>,
    pub working_directory: Option<Seq<char>>,
    pub environment: Seq<(Seq<char>, Seq<char>)>,
    pub directories: Seq<Seq<char>>,
    pub detached: bool,
    pub null_streams: bool,
}

impl View for LaunchRequest {
    type V = LaunchRequestView;

    open spec fn view(&self) -> LaunchRequestView {
        LaunchRequestView {
            program: self.program@,
            arguments: self.arguments.deep_view(),
            working_directory: self.working_directory.deep_view(),
            environment: self.environment.deep_view(),
            directories: self.directories.deep_view(),
            detached: self.detached,
            null_streams: self.null_streams,
        }
    }
}

/// The private data directory of an instance: the one its configuration
/// names, or else the entry named after its identifier under `base`.
pub open spec fn data_directory_of(base: Seq<char>, id: InstanceId, config: InstanceConfigView) -> Seq<
    char,
> {
    match config.data_directory {
        Some(dir) => dir,
        None => child_path(base, hyphenated_text(id.0)),
    }
}

/// Whether a launch rewrites the home and application-data variables.
pub open spec fn isolates_environment(config: InstanceConfigView) -> bool {
    config.bypass_single_instance && config.use_environment_isolation
}

/// The environment of a launch: the isolation variables where isolation is
/// asked for, then the configured overrides.
pub open spec fn launch_environment_of(
    config: InstanceConfigView,
    data_dir: Seq<char>,
    family: OsFamily,
) -> Seq<(Seq<char>, Seq<char>)> {
    if isolates_environment(config) {
        isolation_env_of(data_dir, family) + config.environment
    } else {
        config.environment
    }
}

/// The working directory of a launch: the configured one, or else the
/// directory of the executable.
pub open spec fn working_directory_of(
    config: InstanceConfigView,
    executable_parent: Option<Seq<char>>,
) -> Option<Seq<char>> {
    match config.working_directory {
        Some(dir) => Some(dir),
        None => executable_parent,
    }
}

/// The launch request for an instance.
pub open spec fn launch_request_of(
    base: Seq<char>,
    family: OsFamily,
    instance: InstanceView,
    executable_parent: Option<Seq<char>>,
) -> LaunchRequestView {
    let data_dir = data_directory_of(base, instance.id, instance.config);
    LaunchRequestView {
        program: instance.config.executable_path,
        arguments: instance.config.arguments,
        working_directory: working_directory_of(instance.config, executable_parent),
        environment: launch_environment_of(instance.config, data_dir, family),
        directories: isolation_directories_of(data_dir, family),
        detached: true,
        null_streams: true,
    }
}

/// One resource limit to apply after a launch.
#[derive(Debug, Clone, Copy, PartialEq, Eq, Structural)]
pub struct LimitStep {
    /// The uniform operation that the primitive stands for.
    pub op: PlatformOp,
    /// The primitive to carry out.
    pub request: PlatformRequest,
}

/// The limits to apply to the process `pid` on `family`, in order: affinity,
/// priority, memory. A limit that is not declared, or that the system cannot
/// apply to a running process or to this process id, is left out.
pub open spec fn limit_steps_of(family: OsFamily, pid: u32, limits: ResourceLimitsView) -> Seq<
    LimitStep,
> {
    let affinity = if limits.cpu_affinity.len() > 0 && family == OsFamily::Windows {
        seq![
            LimitStep {
                op: PlatformOp::SetCpuAffinity,
                request: PlatformRequest::AffinityMask {
                    pid,
                    mask: crate::platform::affinity_mask_of(limits.cpu_affinity),
                },
            },
        ]
    } else {
        Seq::empty()
    };
    let priority = if limits.priority != 0 && family == OsFamily::Windows {
        seq![
            LimitStep {
                op: PlatformOp::SetPriority,
                request: PlatformRequest::PriorityClass {
                    pid,
                    class: crate::platform::launch_priority_class(limits.priority as int),
                },
            },
        ]
    } else if limits.priority != 0 && family == OsFamily::MacOs
        && crate::platform::is_signal_target(pid) {
        seq![
            LimitStep {
                op: PlatformOp::SetPriority,
                request: PlatformRequest::Niceness { pid, value: limits.priority as i32 },
            },
        ]
    } else {
        Seq::empty()
    };
    let memory = if limits.memory_mb > 0 && family == OsFamily::Windows {
        seq![
            LimitStep {
                op: PlatformOp::SetMemoryLimit,
                request: PlatformRequest::JobMemoryLimit {
                    pid,
                    bytes: crate::platform::megabytes_in_bytes(limits.memory_mb),
                },
            },
        ]
    } else {
        Seq::empty()
    };
    affinity + priority + memory
}

/// The background work that follows the launch of `pid`: only the handle
/// backend has any, the handle walk where the single-instance bypass is
/// asked for, then the hiding of windows where that is asked for.
pub open spec fn background_tasks_of(family: OsFamily, pid: u32, config: InstanceConfigView) -> Seq<
    BackgroundTask,
> {
    let bypass = if family == OsFamily::Windows && config.bypass_single_instance {
        seq![
            BackgroundTask {
                kind: BackgroundKind::CloseSingletonHandles,
                pid,
                settle_delay_ms: SINGLETON_SETTLE_MS,
            },
        ]
    } else {
        Seq::empty()
    };
    let hide = if family == OsFamily::Windows && config.hide_from_taskbar {
        seq![
            BackgroundTask {
                kind: BackgroundKind::HideFromTaskbar,
                pid,
                settle_delay_ms: TASKBAR_SETTLE_MS,
            },
        ]
    } else {
        Seq::empty()
    };
    bypass + hide
}

/// What is left to do once a launch has succeeded. All of it is best effort:
/// a failure is logged and never fails the launch.
#[derive(Debug)]
pub struct PostLaunch {
    /// The process that was launched.
    pub pid: u32,
    /// The limits to apply now, in order.
    pub limits: Vec<LimitStep>,
    /// The work to hand to detached workers.
    pub background: Vec<BackgroundTask>,
}

/// Lists the limits to apply to the process `pid` on `family`.
pub fn apply_resource_limits(family: OsFamily, pid: u32, limits: &crate::resource::ResourceLimits) -> (r:
    Vec<LimitStep>)
    ensures
        r@ == limit_steps_of(family, pid, limits@),
{
    let mut r: Vec<LimitStep> = Vec::new();
    if limits.cpu_affinity.len() > 0 {
        match family {
            OsFamily::Windows => {
                let mask = crate::platform::affinity_mask(&limits.cpu_affinity);
                r.push(
                    LimitStep {
                        op: PlatformOp::SetCpuAffinity,
                        request: PlatformRequest::AffinityMask { pid, mask },
                    },
                );
            },
            _ => {},
        }
    }
    if limits.priority != 0 {
        match crate::platform::set_process_priority(family, pid, limits.priority) {
            Ok(request) => {
                r.push(LimitStep { op: PlatformOp::SetPriority, request });
            },
            Err(_) => {},
        }
    }
    match crate::platform::set_memory_limit(family, pid, limits.memory_mb) {
        PlatformRequest::Nothing => {},
        request => {
            r.push(LimitStep { op: PlatformOp::SetMemoryLimit, request });
        },
    }
    assert(r@ =~= limit_steps_of(family, pid, limits@));
    r
}

/// Lists the background work that follows the launch of `pid`.
pub fn background_tasks(family: OsFamily, pid: u32, config: &InstanceConfig) -> (r: Vec<
    BackgroundTask,
>)
    ensures
        r@ == background_tasks_of(family, pid, config@),
{
    let mut r: Vec<BackgroundTask> = Vec::new();
    match family {
        OsFamily::Windows => {
            if config.bypass_single_instance {
                r.push(
                    BackgroundTask {
                        kind: BackgroundKind::CloseSingletonHandles,
                        pid,
                        settle_delay_ms: SINGLETON_SETTLE_MS,
                    },
                );
            }
            if config.hide_from_taskbar {
                r.push(crate::platform::hide_process_from_taskbar(pid));
            }
        },
        _ => {},
    }
    assert(r@ =~= background_tasks_of(family, pid, config@));
    r
}


/// What has happened so far in a command that signals a process.
#[derive(Debug, Clone, Copy, PartialEq, Eq)]
pub enum Progress {
    /// Nothing yet.
    Start,
    /// The first primitive was carried out, with this outcome.
    Tried(Result<(), PlatformError>),
    /// The forceful primitive that followed a failure was carried out, with
    /// this outcome.
    Forced(Result<(), PlatformError>),
}

/// What the caller no longer needs once a process is gone.
#[derive(Debug, Clone, Copy, PartialEq, Eq)]
pub struct Teardown {
    /// Whether a process handle was held for the instance and is to be
    /// dropped.
    pub drop_handle: bool,
    /// The process whose resource-constraint object is to be closed, if it
    /// had one.
    pub close_job: Option<u32>,
}

/// The next thing to do in a command that signals a process.
#[derive(Debug, Clone, Copy, PartialEq, Eq)]
pub enum Step {
    /// Carry out this primitive and come back with `Progress::Tried`.
    Perform(PlatformRequest),
    /// Carry out this forceful primitive and come back with
    /// `Progress::Forced`.
    Escalate(PlatformRequest),
    /// The command has taken effect and the instance is updated.
    Complete(Teardown),
    /// There was nothing to do; nothing has changed.
    NotNeeded,
    /// The command failed; nothing has changed.
    Failed(CoreError),
}

/// The forceful end of the process `pid`, as a step.
pub open spec fn forced_step_of(family: OsFamily, pid: u32) -> Step {
    match crate::platform::control_request(family, PlatformOp::Kill, pid) {
        Ok(request) => Step::Escalate(request),
        Err(error) => Step::Failed(CoreError::of_platform(error)),
    }
}

/// A step that carries out `op` on `pid` and has no fallback.
pub open spec fn single_step_of(family: OsFamily, op: PlatformOp, pid: u32, progress: Progress) -> Step {
    match progress {
        Progress::Start => match crate::platform::control_request(family, op, pid) {
            Ok(request) => Step::Perform(request),
            Err(error) => Step::Failed(CoreError::of_platform(error)),
        },
        Progress::Tried(Ok(())) | Progress::Forced(Ok(())) => Step::Complete(
            Teardown { drop_handle: false, close_job: None },
        ),
        Progress::Tried(Err(error)) | Progress::Forced(Err(error)) => Step::Failed(
            CoreError::of_platform(error),
        ),
    }
}

/// How the outcome of a finished wait on a process handle is reported.
#[derive(Debug)]
pub enum WaitOutcome {
    /// The process has exited; `success` tells a clean exit from an abnormal
    /// one, and `status` describes the exit.
    Exited { success: bool, status: String },
    /// The process has not exited.
    StillRunning,
    /// The wait itself failed, with this description.
    Failed(String),
}

/// What has happened so far in a liveness check.
#[derive(Debug)]
pub enum CheckProgress {
    /// Nothing yet.
    Start,
    /// The process handle was polled without blocking.
    Waited(WaitOutcome),
    /// The process id was probed; the answer carries the exit code where the
    /// probe asked for one.
    Probed(Result<u32, PlatformError>),
}

/// The next thing to do in a liveness check.
#[derive(Debug, Clone, Copy, PartialEq, Eq)]
pub enum CheckStep {
    /// Poll the held process handle without blocking and come back with
    /// `CheckProgress::Waited`.
    WaitOnHandle,
    /// Carry out this probe and come back with `CheckProgress::Probed`.
    Probe(PlatformRequest),
    /// The check is over: whether the process runs, and what to release if
    /// it has just been found gone.
    Done { alive: bool, teardown: Teardown },
}

/// The detail recorded for an abnormal exit that the system describes as
/// `status`.
pub open spec fn exit_detail_of(status: Seq<char>) -> Seq<char> {
    "Process exited with status: "@ + status
}

/// Owns the bookkeeping of live processes: which instances have a process
/// handle, and which processes were assigned a resource-constraint object
/// that must be closed when they are gone.
pub struct ProcessManager {
    /// Identifiers of the instances whose process handle is held.
    pub children: HashSet<u128>,
    /// Processes that have an open resource-constraint object.
    pub job_handles: HashSet<u32>,
    /// Directory under which instances get their private data directories.
    pub instance_data_dir: String,
    /// The backend in use.
    pub family: OsFamily,
}

/// What a `ProcessManager` holds, as plain values.
pub struct ProcessManagerView {
    pub children: Set<u128>,
    pub job_handles: Set<u32>,
    pub instance_data_dir: Seq<char>,
    pub family: OsFamily,
}

impl View for ProcessManager {
    type V = ProcessManagerView;

    open spec fn view(&self) -> ProcessManagerView {
        ProcessManagerView {
            children: self.children@,
            job_handles: self.job_handles@,
            instance_data_dir: self.instance_data_dir@,
            family: self.family,
        }
    }
}

impl ProcessManagerView {
    /// The invariant of the bookkeeping: both sets are finite.
    pub open spec fn wf(self) -> bool {
        self.children.finite() && self.job_handles.finite()
    }

    /// What is to be released when the process of `instance` is gone.
    pub open spec fn teardown_of(self, instance: InstanceView) -> Teardown {
        Teardown {
            drop_handle: self.children.contains(instance.id.0),
            close_job: match instance.pid {
                Some(pid) => if self.job_handles.contains(pid) {
                    Some(pid)
                } else {
                    None
                },
                None => None,
            },
        }
    }

    /// The bookkeeping after the process of `instance` is gone.
    pub open spec fn released(self, instance: InstanceView) -> ProcessManagerView {
        ProcessManagerView {
            children: self.children.remove(instance.id.0),
            job_handles: match instance.pid {
                Some(pid) => self.job_handles.remove(pid),
                None => self.job_handles,
            },
            ..self
        }
    }

    /// The next step of a stop: a graceful end first, a forceful one if that
    /// fails or does not exist, and failure only if the forceful one fails
    /// too. An instance that is not live needs nothing.
    pub open spec fn stop_step_of(self, instance: InstanceView, progress: Progress) -> Step {
        if !instance.status.is_active() {
            Step::NotNeeded
        } else {
            match instance.pid {
                None => Step::Complete(self.teardown_of(instance)),
                Some(pid) => match progress {
                    Progress::Start => match crate::platform::control_request(
                        self.family,
                        PlatformOp::Terminate,
                        pid,
                    ) {
                        Ok(request) => Step::Perform(request),
                        Err(_) => forced_step_of(self.family, pid),
                    },
                    Progress::Tried(Ok(())) => Step::Complete(self.teardown_of(instance)),
                    Progress::Tried(Err(_)) => forced_step_of(self.family, pid),
                    Progress::Forced(Ok(())) => Step::Complete(self.teardown_of(instance)),
                    Progress::Forced(Err(error)) => Step::Failed(CoreError::of_platform(error)),
                },
            }
        }
    }

    /// The next step of a kill: a forceful end, with no fallback. An
    /// instance that is not live needs nothing.
    pub open spec fn kill_step_of(self, instance: InstanceView, progress: Progress) -> Step {
        if !instance.status.is_active() {
            Step::NotNeeded
        } else {
            match instance.pid {
                None => Step::Complete(self.teardown_of(instance)),
                Some(pid) => match single_step_of(self.family, PlatformOp::Kill, pid, progress) {
                    Step::Complete(_) => Step::Complete(self.teardown_of(instance)),
                    step => step,
                },
            }
        }
    }

    /// The next step of a pause or a resume, which is `op`. An instance that
    /// is not live, or has no process id, needs nothing.
    pub open spec fn signal_step_of(self, op: PlatformOp, instance: InstanceView, progress: Progress) -> Step {
        if !instance.status.is_active() {
            Step::NotNeeded
        } else {
            match instance.pid {
                None => Step::NotNeeded,
                Some(pid) => single_step_of(self.family, op, pid, progress),
            }
        }
    }
}

impl ProcessManager {
    /// The invariant of the bookkeeping; see `ProcessManagerView::wf`.
    pub open spec fn wf(&self) -> bool {
        self@.wf()
    }

    /// A manager that holds no process yet.
    pub fn new(instance_data_dir: String, family: OsFamily) -> (r: Self)
        ensures
            r.wf(),
            r@ == (ProcessManagerView {
                children: Set::empty(),
                job_handles: Set::empty(),
                instance_data_dir: instance_data_dir@,
                family,
            }),
    {
        ProcessManager {
            children: HashSet::new(),
            job_handles: HashSet::new(),
            instance_data_dir,
            family,
        }
    }

    /// The private data directory of an instance.
    pub fn get_instance_data_dir(&self, id: InstanceId, config: &InstanceConfig) -> (r: String)
        ensures
            r@ == data_directory_of(self.instance_data_dir@, id, config@),
    {
        match &config.data_directory {
            Some(dir) => dir.clone(),
            None => {
                let name = id.to_text();
                join_path(self.instance_data_dir.as_str(), name.as_str())
            },
        }
    }

    /// The default private data directory of an instance, which is removed
    /// when the instance is removed together with its data.
    pub fn cleanup_instance_data(&self, id: InstanceId) -> (r: String)
        ensures
            r@ == child_path(self.instance_data_dir@, hyphenated_text(id.0)),
    {
        let name = id.to_text();
        join_path(self.instance_data_dir.as_str(), name.as_str())
    }

    /// Puts together the launch of `instance`, given whether its executable
    /// exists and which directory holds it. A live instance cannot be
    /// launched again, and a missing executable cannot be launched at all.
    pub fn plan_spawn_in(
        &self,
        instance: &Instance,
        executable_exists: bool,
        executable_parent: Option<String>,
    ) -> (r: Result<LaunchRequest, CoreError>)
        ensures
            instance.status.is_active() ==> r == Err::<LaunchRequest, CoreError>(
                CoreError::InvalidState,
            ),
            !instance.status.is_active() && !executable_exists ==> r == Err::<
                LaunchRequest,
                CoreError,
            >(CoreError::NotFound),
            !instance.status.is_active() && executable_exists ==> r is Ok && r->Ok_0@
                == launch_request_of(
                self.instance_data_dir@,
                self.family,
                instance@,
                executable_parent.deep_view(),
            ),
    {
        if instance.status.is_active() {
            return Err(CoreError::InvalidState);
        }
        if !executable_exists {
            return Err(CoreError::NotFound);
        }
        let config = &instance.config;
        let data_dir = self.get_instance_data_dir(instance.id, config);
        let working_directory = match &config.working_directory {
            Some(dir) => Some(dir.clone()),
            None => executable_parent,
        };
        let mut environment = if config.bypass_single_instance && config.use_environment_isolation {
            setup_isolation_env(data_dir.as_str(), self.family)
        } else {
            Vec::new()
        };
        let ghost isolation = environment.deep_view();
        let mut overrides = clone_text_pairs(&config.environment);
        environment.append(&mut overrides);
        assert(environment.deep_view() =~= isolation + config.environment.deep_view());
        let request = LaunchRequest {
            program: config.executable_path.clone(),
            arguments: clone_texts(&config.arguments),
            working_directory,
            environment,
            directories: isolation_directories(data_dir.as_str(), self.family),
            detached: true,
            null_streams: true,
        };
        assert(request@.environment =~= launch_environment_of(
            instance.config@,
            data_dir@,
            self.family,
        ));
        Ok(request)
    }

    /// Puts together the launch of `instance`, given whether its executable
    /// exists. The directory of the executable, which is the working
    /// directory unless one is configured, is taken by the operating
    /// system's path rules; `plan_spawn_in` says how the rest is decided.
    pub fn plan_spawn(&self, instance: &Instance, executable_exists: bool) -> (r: Result<
        LaunchRequest,
        CoreError,
    >)
        ensures
            instance.status.is_active() ==> r == Err::<LaunchRequest, CoreError>(
                CoreError::InvalidState,
            ),
            !instance.status.is_active() && !executable_exists ==> r == Err::<
                LaunchRequest,
                CoreError,
            >(CoreError::NotFound),
            !instance.status.is_active() && executable_exists ==> r is Ok && exists|
                parent: Option<Seq<char>>,
            |
                r->Ok_0@ == launch_request_of(
                    self.instance_data_dir@,
                    self.family,
                    instance@,
                    parent,
                ),
    {
        let parent = parent_directory(instance.config.executable_path.as_str());
        self.plan_spawn_in(instance, executable_exists, parent)
    }

    /// Takes in the outcome of a launch. A launch that gave a process marks
    /// the instance as starting with that process, notes that its handle is
    /// held, and answers with the best-effort work that remains. A failed
    /// launch, or one reported for an instance that is live already, changes
    /// nothing.
    pub fn spawn(&mut self, instance: &mut Instance, launched: Result<u32, PlatformError>) -> (r:
        Result<PostLaunch, CoreError>)
        ensures
            old(instance).status.is_active() ==> r == Err::<PostLaunch, CoreError>(
                CoreError::InvalidState,
            ),
            !old(instance).status.is_active() && launched is Err ==> r == Err::<
                PostLaunch,
                CoreError,
            >(CoreError::of_platform(launched->Err_0)),
            r is Err ==> final(instance)@ == old(instance)@ && final(self)@ == old(self)@,
            !old(instance).status.is_active() && launched is Ok ==> {
                &&& r is Ok
                &&& r->Ok_0.pid == launched->Ok_0
                &&& r->Ok_0.limits@ == limit_steps_of(
                    old(self).family,
                    launched->Ok_0,
                    old(instance)@.config.resource_limits,
                )
                &&& r->Ok_0.background@ == background_tasks_of(
                    old(self).family,
                    launched->Ok_0,
                    old(instance)@.config,
                )
                &&& final(instance).started_at is Some
                &&& final(instance)@ == old(instance)@.started(
                    launched->Ok_0,
                    final(instance).started_at->0,
                )
                &&& final(self)@ == (ProcessManagerView {
                    children: old(self)@.children.insert(old(instance).id.0),
                    ..old(self)@
                })
            },
            old(instance).wf() ==> final(instance).wf(),
            old(self).wf() ==> final(self).wf(),
    {
        broadcast use vstd::std_specs::hash::group_hash_axioms;

        if instance.status.is_active() {
            return Err(CoreError::InvalidState);
        }
        match launched {
            Err(error) => Err(CoreError::from_platform(error)),
            Ok(pid) => {
                let limits = apply_resource_limits(self.family, pid, &instance.config.resource_limits);
                let background = background_tasks(self.family, pid, &instance.config);
                instance.mark_starting(pid);
                self.children.insert(instance.id.0);
                Ok(PostLaunch { pid, limits, background })
            },
        }
    }

    /// Takes in the outcome of one limit that was applied after a launch. A
    /// memory cap that took effect leaves a resource-constraint object open,
    /// which is noted for the process. The answer is the result of the limit
    /// once the failures that the backend swallows are taken out; whatever
    /// it is, the launch stands.
    pub fn record_limit(&mut self, step: &LimitStep, outcome: Result<(), PlatformError>) -> (r:
        Result<(), PlatformError>)
        ensures
            r == match outcome {
                Ok(()) => Ok::<(), PlatformError>(()),
                Err(error) => if crate::platform::is_swallowed(old(self).family, step.op, error) {
                    Ok(())
                } else {
                    Err(error)
                },
            },
            final(self)@ == (ProcessManagerView {
                job_handles: match (step.request, outcome) {
                    (PlatformRequest::JobMemoryLimit { pid, bytes }, Ok(())) => old(
                        self,
                    )@.job_handles.insert(pid),
                    _ => old(self)@.job_handles,
                },
                ..old(self)@
            }),
            old(self).wf() ==> final(self).wf(),
    {
        broadcast use vstd::std_specs::hash::group_hash_axioms;

        match (step.request, outcome) {
            (PlatformRequest::JobMemoryLimit { pid, bytes }, Ok(())) => {
                self.job_handles.insert(pid);
            },
            _ => {},
        }
        crate::platform::settle(self.family, step.op, outcome)
    }
}


impl ProcessManager {
    /// Lets go of everything held for the process of `instance`.
    fn release(&mut self, instance: &Instance) -> (teardown: Teardown)
        ensures
            teardown == old(self)@.teardown_of(instance@),
            final(self)@ == old(self)@.released(instance@),
            old(self).wf() ==> final(self).wf(),
    {
        broadcast use vstd::std_specs::hash::group_hash_axioms;

        let drop_handle = self.children.remove(&instance.id.0);
        let close_job = match instance.pid {
            Some(pid) => if self.job_handles.remove(&pid) {
                Some(pid)
            } else {
                None
            },
            None => None,
        };
        Teardown { drop_handle, close_job }
    }

    /// The forceful end of the process `pid`, as a step.
    fn forced_step(&self, pid: u32) -> (step: Step)
        ensures
            step == forced_step_of(self.family, pid),
    {
        match crate::platform::kill_process(self.family, pid) {
            Ok(request) => Step::Escalate(request),
            Err(error) => Step::Failed(CoreError::from_platform(error)),
        }
    }

    /// Stops an instance: a graceful end first, a forceful one if that
    /// fails. Once the process is ended the instance is marked stopped and
    /// everything held for it is let go. Until then, and on failure, nothing
    /// changes.
    pub fn stop(&mut self, instance: &mut Instance, progress: Progress) -> (step: Step)
        ensures
            step == old(self)@.stop_step_of(old(instance)@, progress),
            step is Complete ==> {
                &&& final(instance).stopped_at is Some
                &&& final(instance)@ == old(instance)@.stopped(final(instance).stopped_at->0)
                &&& final(self)@ == old(self)@.released(old(instance)@)
            },
            !(step is Complete) ==> final(instance)@ == old(instance)@ && final(self)@ == old(
                self,
            )@,
            old(instance).wf() ==> final(instance).wf(),
            old(self).wf() ==> final(self).wf(),
    {
        if !instance.status.is_active() {
            return Step::NotNeeded;
        }
        let pid = match instance.pid {
            None => {
                let teardown = self.release(instance);
                instance.mark_stopped();
                return Step::Complete(teardown);
            },
            Some(pid) => pid,
        };
        let ended = match progress {
            Progress::Start => match crate::platform::terminate_process(self.family, pid) {
                Ok(request) => {
                    return Step::Perform(request);
                },
                Err(_) => {
                    return self.forced_step(pid);
                },
            },
            Progress::Tried(Ok(())) => true,
            Progress::Tried(Err(_)) => {
                return self.forced_step(pid);
            },
            Progress::Forced(Ok(())) => true,
            Progress::Forced(Err(error)) => {
                return Step::Failed(CoreError::from_platform(error));
            },
        };
        let teardown = self.release(instance);
        instance.mark_stopped();
        Step::Complete(teardown)
    }

    /// Kills an instance: a forceful end with no fallback. Once the process
    /// is ended the instance is marked stopped and everything held for it is
    /// let go. Until then, and on failure, nothing changes.
    pub fn kill(&mut self, instance: &mut Instance, progress: Progress) -> (step: Step)
        ensures
            step == old(self)@.kill_step_of(old(instance)@, progress),
            step is Complete ==> {
                &&& final(instance).stopped_at is Some
                &&& final(instance)@ == old(instance)@.stopped(final(instance).stopped_at->0)
                &&& final(self)@ == old(self)@.released(old(instance)@)
            },
            !(step is Complete) ==> final(instance)@ == old(instance)@ && final(self)@ == old(
                self,
            )@,
            old(instance).wf() ==> final(instance).wf(),
            old(self).wf() ==> final(self).wf(),
    {
        if !instance.status.is_active() {
            return Step::NotNeeded;
        }
        let pid = match instance.pid {
            None => {
                let teardown = self.release(instance);
                instance.mark_stopped();
                return Step::Complete(teardown);
            },
            Some(pid) => pid,
        };
        match progress {
            Progress::Start => match crate::platform::kill_process(self.family, pid) {
                Ok(request) => Step::Perform(request),
                Err(error) => Step::Failed(CoreError::from_platform(error)),
            },
            Progress::Tried(Ok(())) | Progress::Forced(Ok(())) => {
                let teardown = self.release(instance);
                instance.mark_stopped();
                Step::Complete(teardown)
            },
            Progress::Tried(Err(error)) | Progress::Forced(Err(error)) => Step::Failed(
                CoreError::from_platform(error),
            ),
        }
    }

    /// Pauses an instance: suspends its process, and once that is done marks
    /// the instance paused. Until then, and on failure, nothing changes.
    pub fn pause(&self, instance: &mut Instance, progress: Progress) -> (step: Step)
        ensures
            step == self@.signal_step_of(PlatformOp::Suspend, old(instance)@, progress),
            step is Complete ==> final(instance)@ == (InstanceView {
                status: InstanceStatus::Paused,
                ..old(instance)@
            }),
            !(step is Complete) ==> final(instance)@ == old(instance)@,
            old(instance).wf() ==> final(instance).wf(),
    {
        if !instance.status.is_active() {
            return Step::NotNeeded;
        }
        let pid = match instance.pid {
            None => {
                return Step::NotNeeded;
            },
            Some(pid) => pid,
        };
        match progress {
            Progress::Start => match crate::platform::suspend_process(self.family, pid) {
                Ok(request) => Step::Perform(request),
                Err(error) => Step::Failed(CoreError::from_platform(error)),
            },
            Progress::Tried(Ok(())) | Progress::Forced(Ok(())) => {
                instance.mark_paused();
                Step::Complete(Teardown { drop_handle: false, close_job: None })
            },
            Progress::Tried(Err(error)) | Progress::Forced(Err(error)) => Step::Failed(
                CoreError::from_platform(error),
            ),
        }
    }

    /// Resumes an instance: resumes its process, and once that is done marks
    /// the instance running. Until then, and on failure, nothing changes.
    pub fn resume(&self, instance: &mut Instance, progress: Progress) -> (step: Step)
        ensures
            step == self@.signal_step_of(PlatformOp::Resume, old(instance)@, progress),
            step is Complete ==> final(instance)@ == (InstanceView {
                status: InstanceStatus::Running,
                ..old(instance)@
            }),
            !(step is Complete) ==> final(instance)@ == old(instance)@,
            old(instance).wf() ==> final(instance).wf(),
    {
        if !instance.status.is_active() {
            return Step::NotNeeded;
        }
        let pid = match instance.pid {
            None => {
                return Step::NotNeeded;
            },
            Some(pid) => pid,
        };
        match progress {
            Progress::Start => match crate::platform::resume_process(self.family, pid) {
                Ok(request) => Step::Perform(request),
                Err(error) => Step::Failed(CoreError::from_platform(error)),
            },
            Progress::Tried(Ok(())) | Progress::Forced(Ok(())) => {
                instance.mark_running();
                Step::Complete(Teardown { drop_handle: false, close_job: None })
            },
            Progress::Tried(Err(error)) | Progress::Forced(Err(error)) => Step::Failed(
                CoreError::from_platform(error),
            ),
        }
    }

    /// How many process handles are held.
    pub fn running_count(&self) -> (r: usize)
        ensures
            r == self@.children.len(),
    {
        broadcast use vstd::std_specs::hash::group_hash_axioms;

        self.children.len()
    }

    /// Whether a process handle is held for the instance `id`.
    pub fn has_child(&self, id: InstanceId) -> (r: bool)
        ensures
            r == self@.children.contains(id.0),
    {
        broadcast use vstd::std_specs::hash::group_hash_axioms;

        self.children.contains(&id.0)
    }

    /// Forgets the process handle of the instance `id`, which is no longer
    /// managed.
    pub fn remove_child(&mut self, id: InstanceId)
        ensures
            final(self)@ == (ProcessManagerView {
                children: old(self)@.children.remove(id.0),
                ..old(self)@
            }),
            old(self).wf() ==> final(self).wf(),
    {
        broadcast use vstd::std_specs::hash::group_hash_axioms;

        self.children.remove(&id.0);
    }

    /// Notes that the process `pid` has an open resource-constraint object.
    pub fn store_job_handle(&mut self, pid: u32)
        ensures
            final(self)@ == (ProcessManagerView {
                job_handles: old(self)@.job_handles.insert(pid),
                ..old(self)@
            }),
            old(self).wf() ==> final(self).wf(),
    {
        broadcast use vstd::std_specs::hash::group_hash_axioms;

        self.job_handles.insert(pid);
    }

    /// Forgets the resource-constraint object of the process `pid`, and says
    /// whether there was one to close.
    pub fn cleanup_job_handle(&mut self, pid: u32) -> (had: bool)
        ensures
            had == old(self)@.job_handles.contains(pid),
            final(self)@ == (ProcessManagerView {
                job_handles: old(self)@.job_handles.remove(pid),
                ..old(self)@
            }),
            old(self).wf() ==> final(self).wf(),
    {
        broadcast use vstd::std_specs::hash::group_hash_axioms;

        self.job_handles.remove(&pid)
    }
}


impl ProcessManagerView {
    /// How a liveness check of `instance` begins: with a poll of the held
    /// process handle, or else with a probe of the process id, or else, where
    /// nothing can be asked, with the answer that the process does not run.
    pub open spec fn check_start_of(self, instance: InstanceView) -> CheckStep {
        if self.children.contains(instance.id.0) {
            CheckStep::WaitOnHandle
        } else {
            match instance.pid {
                Some(pid) => match crate::platform::control_request(
                    self.family,
                    PlatformOp::IsRunning,
                    pid,
                ) {
                    Ok(request) => CheckStep::Probe(request),
                    Err(_) => CheckStep::Done {
                        alive: false,
                        teardown: Teardown { drop_handle: false, close_job: None },
                    },
                },
                None => CheckStep::Done {
                    alive: false,
                    teardown: Teardown { drop_handle: false, close_job: None },
                },
            }
        }
    }
}

/// The teardown that releases nothing.
pub open spec fn no_teardown() -> Teardown {
    Teardown { drop_handle: false, close_job: None }
}

/// The outcome of one call of a liveness check of `instance` with
/// `progress`: the step it answers with, the instance and the bookkeeping
/// after it. `now` is the time at which an exit is recorded.
///
/// The check begins with a poll of the held process handle or, where none is
/// held, with a probe of the process id. A poll that finds a clean exit
/// marks the instance stopped; one that finds an abnormal exit, or fails,
/// marks it crashed with the detail; either way everything held for the
/// process is let go. A poll that finds the process running turns a
/// starting instance into a running one. The answer to a probe is passed
/// on and changes nothing.
pub open spec fn check_outcome_of(
    manager: ProcessManagerView,
    instance: InstanceView,
    progress: CheckProgress,
    now: crate::instance::Timestamp,
) -> (CheckStep, InstanceView, ProcessManagerView) {
    match progress {
        CheckProgress::Start => (manager.check_start_of(instance), instance, manager),
        CheckProgress::Probed(answer) => (
            CheckStep::Done {
                alive: crate::platform::probe_says_running(manager.family, answer),
                teardown: no_teardown(),
            },
            instance,
            manager,
        ),
        CheckProgress::Waited(WaitOutcome::StillRunning) => (
            CheckStep::Done { alive: true, teardown: no_teardown() },
            instance.confirmed_live(),
            manager,
        ),
        CheckProgress::Waited(WaitOutcome::Exited { success, status }) => (
            CheckStep::Done { alive: false, teardown: manager.teardown_of(instance) },
            if success {
                instance.stopped(now)
            } else {
                instance.crashed(Some(exit_detail_of(status@)), now)
            },
            manager.released(instance),
        ),
        CheckProgress::Waited(WaitOutcome::Failed(detail)) => (
            CheckStep::Done { alive: false, teardown: manager.teardown_of(instance) },
            instance.crashed(Some(detail@), now),
            manager.released(instance),
        ),
    }
}

/// Whether `progress` reports the end of the process.
pub open spec fn reports_exit(progress: CheckProgress) -> bool {
    progress is Waited && !(progress->Waited_0 is StillRunning)
}

/// The time that a liveness check recorded for an exit, read off the
/// instance after the check.
pub open spec fn exit_stamp_of(stopped_at: Option<crate::instance::Timestamp>) -> crate::instance::Timestamp {
    match stopped_at {
        Some(now) => now,
        None => crate::instance::Timestamp { secs: 0, nanos: 0 },
    }
}

impl InstanceView {
    /// The instance after a poll of its process handle found it running: a
    /// starting instance is running from now on.
    pub open spec fn confirmed_live(self) -> InstanceView {
        if self.status == InstanceStatus::Starting {
            InstanceView { status: InstanceStatus::Running, ..self }
        } else {
            self
        }
    }
}

impl ProcessManager {
    /// Checks whether the process of an instance still runs, without
    /// blocking; `check_outcome_of` says how.
    pub fn check_process(&mut self, instance: &mut Instance, progress: CheckProgress) -> (step:
        CheckStep)
        ensures
            reports_exit(progress) ==> final(instance).stopped_at is Some,
            (step, final(instance)@, final(self)@) == check_outcome_of(
                old(self)@,
                old(instance)@,
                progress,
                exit_stamp_of(final(instance).stopped_at),
            ),
            old(instance).wf() ==> final(instance).wf(),
            old(self).wf() ==> final(self).wf(),
    {
        broadcast use vstd::std_specs::hash::group_hash_axioms;

        let nothing = Teardown { drop_handle: false, close_job: None };
        match progress {
            CheckProgress::Start => {
                if self.children.contains(&instance.id.0) {
                    CheckStep::WaitOnHandle
                } else {
                    match instance.pid {
                        Some(pid) => match crate::platform::is_process_running(self.family, pid) {
                            PlatformRequest::Nothing => CheckStep::Done {
                                alive: false,
                                teardown: nothing,
                            },
                            request => CheckStep::Probe(request),
                        },
                        None => CheckStep::Done { alive: false, teardown: nothing },
                    }
                }
            },
            CheckProgress::Probed(answer) => CheckStep::Done {
                alive: crate::platform::running_from_probe(self.family, &answer),
                teardown: nothing,
            },
            CheckProgress::Waited(WaitOutcome::StillRunning) => {
                if matches!(instance.status, InstanceStatus::Starting) {
                    instance.mark_running();
                }
                CheckStep::Done { alive: true, teardown: nothing }
            },
            CheckProgress::Waited(WaitOutcome::Exited { success, status }) => {
                let teardown = self.release(instance);
                if success {
                    instance.mark_stopped();
                } else {
                    let detail = String::from_str("Process exited with status: ").concat(
                        status.as_str(),
                    );
                    instance.mark_crashed(Some(detail));
                }
                CheckStep::Done { alive: false, teardown }
            },
            CheckProgress::Waited(WaitOutcome::Failed(detail)) => {
                let teardown = self.release(instance);
                instance.mark_crashed(Some(detail));
                CheckStep::Done { alive: false, teardown }
            },
        }
    }
}


/// A launch that gave a process leaves the instance starting with that
/// process, and the first poll that finds the process running turns it into
/// a running instance. Both keep the invariant of the instance.
pub proof fn lemma_started_then_confirmed(instance: InstanceView, pid: u32, now: crate::instance::Timestamp)
    ensures
        instance.started(pid, now).status == InstanceStatus::Starting,
        instance.started(pid, now).pid == Some(pid),
        instance.started(pid, now).confirmed_live().status == InstanceStatus::Running,
        instance.started(pid, now).confirmed_live().pid == Some(pid),
        instance.started(pid, now).wf(),
        instance.started(pid, now).confirmed_live().wf(),
{
}

/// A process that exits cleanly after its launch leaves the instance stopped
/// with no error recorded.
pub proof fn lemma_clean_exit_leaves_no_error(
    instance: InstanceView,
    pid: u32,
    started_at: crate::instance::Timestamp,
    stopped_at: crate::instance::Timestamp,
)
    ensures
        instance.started(pid, started_at).stopped(stopped_at).status == InstanceStatus::Stopped,
        instance.started(pid, started_at).stopped(stopped_at).last_error is None,
        instance.started(pid, started_at).stopped(stopped_at).wf(),
{
}


} // verus!
