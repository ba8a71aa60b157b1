//! The orchestrator: the collection of instances and profiles, and the
//! commands that act on them.
//!
//! A command that needs the operating system is split where the system comes
//! in: its first part checks the preconditions and answers with what is to be
//! done, its second part takes in how that went. Whatever a command changes
//! is for the caller to persist.

use vstd::prelude::*;
use crate::error::CoreError;
use crate::instance::{
    Instance, InstanceConfig, InstanceConfigView, InstanceId, InstanceStatus, InstanceView,
    Timestamp,
};
use crate::monitor::{find_process, usage_of, ResourceMonitor};
use crate::platform::{OsFamily, PlatformError, PlatformOp};
use crate::process::{
    check_outcome_of, exit_stamp_of, launch_request_of, reports_exit, CheckProgress, CheckStep, LaunchRequest, PostLaunch, ProcessManager,
    ProcessManagerView, Progress, Step,
};
use crate::profile::{Profile, ProfileId};
use crate::settings::Settings;
use crate::text::{child_path, hyphenated_text};

verus! {

/// The position of the first instance with the identifier `id`, or the
/// number of instances if there is none.
pub open spec fn index_of(instances: Seq<Instance>, id: InstanceId) -> int
    decreases instances.len(),
{
    if instances.len() == 0 {
        0
    } else if instances[0].id == id {
        0
    } else {
        1 + index_of(instances.drop_first(), id)
    }
}

/// `index_of` stays within the list, points at an instance with the
/// identifier where it points at anything, and passes over no such instance.
pub proof fn lemma_index_of(instances: Seq<Instance>, id: InstanceId)
    ensures
        0 <= index_of(instances, id) <= instances.len(),
        index_of(instances, id) < instances.len() ==> instances[index_of(instances, id)].id == id,
        forall|k: int| 0 <= k < index_of(instances, id) ==> instances[k].id != id,
    decreases instances.len(),
{
    if instances.len() > 0 && instances[0].id != id {
        let rest = instances.drop_first();
        lemma_index_of(rest, id);
        assert forall|k: int| 0 <= k < index_of(instances, id) implies instances[k].id != id by {
            if k > 0 {
                assert(rest[k - 1] == instances[k]);
            }
        }
    }
}

/// The position of the first profile with the identifier `id`, or the number
/// of profiles if there is none.
pub open spec fn profile_index_of(profiles: Seq<Profile>, id: ProfileId) -> int
    decreases profiles.len(),
{
    if profiles.len() == 0 {
        0
    } else if profiles[0].id == id {
        0
    } else {
        1 + profile_index_of(profiles.drop_first(), id)
    }
}

/// `profile_index_of` stays within the list and points at a profile with the
/// identifier where it points at anything.
pub proof fn lemma_profile_index_of(profiles: Seq<Profile>, id: ProfileId)
    ensures
        0 <= profile_index_of(profiles, id) <= profiles.len(),
        profile_index_of(profiles, id) < profiles.len() ==> profiles[profile_index_of(
            profiles,
            id,
        )].id == id,
        forall|k: int| 0 <= k < profile_index_of(profiles, id) ==> profiles[k].id != id,
    decreases profiles.len(),
{
    if profiles.len() > 0 && profiles[0].id != id {
        let rest = profiles.drop_first();
        lemma_profile_index_of(rest, id);
        assert forall|k: int| 0 <= k < profile_index_of(profiles, id) implies profiles[k].id
            != id by {
            if k > 0 {
                assert(rest[k - 1] == profiles[k]);
            }
        }
    }
}

/// How many of the instances are live.
pub open spec fn active_count_of(instances: Seq<Instance>) -> nat
    decreases instances.len(),
{
    if instances.len() == 0 {
        0
    } else {
        active_count_of(instances.drop_last()) + if instances.last().status.is_active() {
            1nat
        } else {
            0nat
        }
    }
}

/// The central state: every instance and profile, the settings, the process
/// manager and the resource monitor.
pub struct AppState {
    /// The managed instances, in the order of their creation.
    pub instances: Vec<Instance>,
    /// The instances whose first launch is under way, in the order of their
    /// creation; each joins `instances` once its launch has succeeded.
    pub pending: Vec<Instance>,
    /// The saved profiles.
    pub profiles: Vec<Profile>,
    /// The settings.
    pub settings: Settings,
    /// The process manager.
    pub process_manager: ProcessManager,
    /// The resource monitor.
    pub resource_monitor: ResourceMonitor,
    /// The quick-launch configurations.
    pub quick_launch: Vec<InstanceConfig>,
    /// The instance groups, each at most once.
    pub groups: Vec<String>,
    /// The executables used last, the latest first, each at most once.
    pub recent_apps: Vec<String>,
}

/// Most executables that are remembered as used last.
pub const MAX_RECENT_APPS: usize = 10;

/// Milliseconds that a restart waits between the stop and the start.
pub const RESTART_PAUSE_MS: u64 = 500;

impl AppState {
    /// The invariant of the state: no two instances share an identifier, and
    /// every instance keeps its own invariant.
    pub open spec fn wf(&self) -> bool {
        &&& forall|i: int, j: int|
            0 <= i < j < self.instances@.len() ==> self.instances[i].id != self.instances[j].id
        &&& forall|i: int| 0 <= i < self.instances@.len() ==> (#[trigger] self.instances[i]).wf()
        &&& self.process_manager.wf()
        &&& forall|i: int, j: int|
            0 <= i < j < self.pending@.len() ==> self.pending[i].id != self.pending[j].id
        &&& forall|i: int|
            0 <= i < self.pending@.len() ==> (#[trigger] self.pending[i]).wf()
                && !self.pending[i].status.is_active()
        &&& forall|i: int, j: int|
            0 <= i < self.instances@.len() && 0 <= j < self.pending@.len()
                ==> self.instances[i].id != self.pending[j].id
    }

    /// Whether `id` is the identifier of an instance, stored or waiting for
    /// its first launch.
    pub open spec fn id_is_taken(&self, id: InstanceId) -> bool {
        index_of(self.instances@, id) < self.instances@.len() || index_of(self.pending@, id)
            < self.pending@.len()
    }

    /// Whether an instance has the identifier `id`.
    pub open spec fn has_instance(&self, id: InstanceId) -> bool {
        index_of(self.instances@, id) < self.instances@.len()
    }

    /// The instance with the identifier `id`.
    pub open spec fn instance(&self, id: InstanceId) -> Instance
        recommends
            self.has_instance(id),
    {
        self.instances@[index_of(self.instances@, id)]
    }

    /// Whether `other` differs from `self` at most in the instance at the
    /// position `at`.
    pub open spec fn same_but_instance(&self, other: &AppState, at: int) -> bool {
        &&& other.instances@.len() == self.instances@.len()
        &&& forall|k: int|
            0 <= k < self.instances@.len() && k != at ==> other.instances[k] == self.instances[k]
        &&& 0 <= at < self.instances@.len() ==> other.instances[at].id == self.instances[at].id
        &&& other.pending == self.pending
        &&& other.profiles == self.profiles
        &&& other.settings == self.settings
        &&& other.resource_monitor == self.resource_monitor
        &&& other.quick_launch == self.quick_launch
        &&& other.groups == self.groups
        &&& other.recent_apps == self.recent_apps
    }

    /// A state with no instance yet, with what was loaded from the store. The
    /// private data directories go under `instances_directory`, and the
    /// resource monitor polls as often as the settings say.
    pub fn new(
        settings: Settings,
        profiles: Vec<Profile>,
        quick_launch: Vec<InstanceConfig>,
        groups: Vec<String>,
        recent_apps: Vec<String>,
        instances_directory: String,
        family: OsFamily,
    ) -> (r: Self)
        ensures
            r.instances@.len() == 0,
            r.pending@.len() == 0,
            r.profiles == profiles,
            r.settings == settings,
            r.quick_launch == quick_launch,
            r.groups == groups,
            r.recent_apps == recent_apps,
            r.process_manager@ == (ProcessManagerView {
                children: Set::empty(),
                job_handles: Set::empty(),
                instance_data_dir: instances_directory@,
                family,
            }),
            r.resource_monitor.throttle == crate::monitor::Throttle::fresh(
                settings.monitor_interval_ms as u64,
            ),
            r.wf(),
    {
        let resource_monitor = ResourceMonitor::new(settings.monitor_interval_ms);
        AppState {
            instances: Vec::new(),
            pending: Vec::new(),
            profiles,
            settings,
            process_manager: ProcessManager::new(instances_directory, family),
            resource_monitor,
            quick_launch,
            groups,
            recent_apps,
        }
    }

    /// Finds the instance with the identifier `id`.
    pub fn find_instance(&self, id: InstanceId) -> (r: Option<usize>)
        ensures
            r == if self.has_instance(id) {
                Some(index_of(self.instances@, id) as usize)
            } else {
                None::<usize>
            },
            r is Some ==> r->0 < self.instances@.len() && self.instances[r->0 as int].id == id
                && r->0 as int == index_of(self.instances@, id),
            r is None ==> forall|k: int| 0 <= k < self.instances@.len() ==> self.instances[k].id != id,
    {
        let ghost all = self.instances@;
        let mut i: usize = 0;
        assert(all.skip(0) =~= all);
        proof {
            lemma_index_of(all, id);
        }
        while i < self.instances.len()
            invariant
                i <= self.instances.len(),
                all == self.instances@,
                index_of(all, id) == i + index_of(all.skip(i as int), id),
            decreases self.instances.len() - i,
        {
            proof {
                assert(all.skip(i as int)[0] == self.instances[i as int]);
                assert(all.skip(i as int).drop_first() =~= all.skip(i + 1));
            }
            if self.instances[i].id == id {
                return Some(i);
            }
            i += 1;
        }
        proof {
            assert(all.skip(i as int).len() == 0);
        }
        None
    }

    /// Number of live instances.
    pub fn active_instance_count(&self) -> (r: usize)
        ensures
            r == active_count_of(self.instances@),
    {
        let mut count: usize = 0;
        let mut i: usize = 0;
        assert(self.instances@.take(0) =~= Seq::<Instance>::empty());
        while i < self.instances.len()
            invariant
                i <= self.instances.len(),
                count == active_count_of(self.instances@.take(i as int)),
                count <= i,
            decreases self.instances.len() - i,
        {
            proof {
                assert(self.instances@.take(i + 1).drop_last() =~= self.instances@.take(i as int));
                assert(self.instances@.take(i + 1).last() == self.instances[i as int]);
            }
            if self.instances[i].status.is_active() {
                count += 1;
            }
            i += 1;
        }
        proof {
            assert(self.instances@.take(self.instances.len() as int) =~= self.instances@);
        }
        count
    }

    /// Number of instances.
    pub fn total_instance_count(&self) -> (r: usize)
        ensures
            r == self.instances@.len(),
    {
        self.instances.len()
    }

    /// Number of profiles.
    pub fn profile_count(&self) -> (r: usize)
        ensures
            r == self.profiles@.len(),
    {
        self.profiles.len()
    }
}

/// The commands that signal the process of an instance.
#[derive(Debug, Clone, Copy, PartialEq, Eq, Structural)]
pub enum Command {
    /// End the process, gracefully if possible.
    Stop,
    /// End the process at once.
    Kill,
    /// Suspend the process.
    Pause,
    /// Resume the process.
    Resume,
}

/// Whether `command` is allowed in the status `status`: a pause takes a
/// running instance and a resume a paused one; a stop and a kill take any.
pub open spec fn command_allowed(command: Command, status: InstanceStatus) -> bool {
    match command {
        Command::Stop | Command::Kill => true,
        Command::Pause => status == InstanceStatus::Running,
        Command::Resume => status == InstanceStatus::Paused,
    }
}

/// The next step of `command` on `instance`.
pub open spec fn command_step_of(
    manager: ProcessManagerView,
    command: Command,
    instance: InstanceView,
    progress: Progress,
) -> Step {
    match command {
        Command::Stop => manager.stop_step_of(instance, progress),
        Command::Kill => manager.kill_step_of(instance, progress),
        Command::Pause => manager.signal_step_of(PlatformOp::Suspend, instance, progress),
        Command::Resume => manager.signal_step_of(PlatformOp::Resume, instance, progress),
    }
}

/// The instance after `command` has taken effect; `stopped_at` is the time
/// of the stop where the command stops the instance.
pub open spec fn command_effect_of(
    command: Command,
    instance: InstanceView,
    stopped_at: Option<Timestamp>,
) -> InstanceView {
    match command {
        Command::Stop | Command::Kill => match stopped_at {
            Some(now) => instance.stopped(now),
            None => instance,
        },
        Command::Pause => InstanceView { status: InstanceStatus::Paused, ..instance },
        Command::Resume => InstanceView { status: InstanceStatus::Running, ..instance },
    }
}

/// The bookkeeping of the process manager after `command` has taken effect
/// on `instance`.
pub open spec fn command_release_of(
    manager: ProcessManagerView,
    command: Command,
    instance: InstanceView,
) -> ProcessManagerView {
    match command {
        Command::Stop | Command::Kill => manager.released(instance),
        _ => manager,
    }
}

impl AppState {
    /// Carries `command` one step further on the instance `id`, given what
    /// has happened so far.
    ///
    /// An unknown identifier is `NotFound`. A pause of an instance that is
    /// not running and a resume of one that is not paused are
    /// `InvalidState`. A stop or a kill of an instance that is not live
    /// succeeds at once. None of these changes anything. Otherwise the
    /// answer is the next primitive to carry out, or the failure, or, once
    /// the command has taken effect, `Step::Complete`; only then has
    /// anything changed: the instance, and for a stop or a kill the
    /// bookkeeping of the process manager.
    pub fn run_command(&mut self, id: InstanceId, command: Command, progress: Progress) -> (r:
        Result<Step, CoreError>)
        ensures
            !old(self).has_instance(id) ==> r == Err::<Step, CoreError>(CoreError::NotFound)
                && *final(self) == *old(self),
            old(self).has_instance(id) && !command_allowed(
                command,
                old(self).instance(id).status,
            ) ==> r == Err::<Step, CoreError>(CoreError::InvalidState) && *final(self) == *old(
                self,
            ),
            old(self).has_instance(id) && command_allowed(command, old(self).instance(id).status)
                ==> {
                let at = index_of(old(self).instances@, id);
                let before = old(self).instances[at]@;
                &&& r == Ok::<Step, CoreError>(
                    command_step_of(old(self).process_manager@, command, before, progress),
                )
                &&& old(self).same_but_instance(final(self), at)
                &&& r->Ok_0 is Complete ==> {
                    &&& (command == Command::Stop || command == Command::Kill)
                        ==> final(self).instances[at].stopped_at is Some
                    &&& final(self).instances[at]@ == command_effect_of(
                        command,
                        before,
                        final(self).instances[at].stopped_at,
                    )
                    &&& final(self).process_manager@ == command_release_of(
                        old(self).process_manager@,
                        command,
                        before,
                    )
                }
                &&& !(r->Ok_0 is Complete) ==> {
                    &&& final(self).instances[at]@ == before
                    &&& final(self).process_manager@ == old(self).process_manager@
                }
                &&& !before.status.is_active() ==> *final(self) == *old(self)
            },
            old(self).wf() ==> final(self).wf(),
    {
        let at = match self.find_instance(id) {
            Some(at) => at,
            None => {
                return Err(CoreError::NotFound);
            },
        };
        let allowed = match command {
            Command::Stop | Command::Kill => true,
            Command::Pause => matches!(self.instances[at].status, InstanceStatus::Running),
            Command::Resume => matches!(self.instances[at].status, InstanceStatus::Paused),
        };
        if !allowed {
            return Err(CoreError::InvalidState);
        }
        if !self.instances[at].status.is_active() {
            return Ok(Step::NotNeeded);
        }
        let mut instance = self.instances.remove(at);
        let step = match command {
            Command::Stop => self.process_manager.stop(&mut instance, progress),
            Command::Kill => self.process_manager.kill(&mut instance, progress),
            Command::Pause => self.process_manager.pause(&mut instance, progress),
            Command::Resume => self.process_manager.resume(&mut instance, progress),
        };
        self.instances.insert(at, instance);
        proof {
            assert(final(self).instances@ =~= old(self).instances@.update(at as int, instance));
        }
        Ok(step)
    }

    /// Stops the instance `id`; see `run_command`. Stopping an instance that
    /// is stopped already succeeds and changes nothing.
    pub fn stop_instance(&mut self, id: InstanceId, progress: Progress) -> (r: Result<
        Step,
        CoreError,
    >)
        ensures
            !old(self).has_instance(id) ==> r == Err::<Step, CoreError>(CoreError::NotFound)
                && *final(self) == *old(self),
            old(self).has_instance(id) ==> {
                let at = index_of(old(self).instances@, id);
                let before = old(self).instances[at]@;
                &&& r == Ok::<Step, CoreError>(
                    old(self).process_manager@.stop_step_of(before, progress),
                )
                &&& !before.status.is_active() ==> r == Ok::<Step, CoreError>(Step::NotNeeded)
                &&& old(self).same_but_instance(final(self), at)
                &&& r->Ok_0 is Complete ==> {
                    &&& final(self).instances[at].stopped_at is Some
                    &&& final(self).instances[at]@ == before.stopped(
                        final(self).instances[at].stopped_at->0,
                    )
                    &&& final(self).process_manager@ == old(self).process_manager@.released(before)
                }
                &&& !(r->Ok_0 is Complete) ==> {
                    &&& final(self).instances[at]@ == before
                    &&& final(self).process_manager@ == old(self).process_manager@
                }
                &&& !before.status.is_active() ==> *final(self) == *old(self)
            },
            old(self).wf() ==> final(self).wf(),
    {
        self.run_command(id, Command::Stop, progress)
    }

    /// Kills the instance `id`; see `run_command`.
    pub fn kill_instance(&mut self, id: InstanceId, progress: Progress) -> (r: Result<
        Step,
        CoreError,
    >)
        ensures
            !old(self).has_instance(id) ==> r == Err::<Step, CoreError>(CoreError::NotFound)
                && *final(self) == *old(self),
            old(self).has_instance(id) ==> {
                let at = index_of(old(self).instances@, id);
                let before = old(self).instances[at]@;
                &&& r == Ok::<Step, CoreError>(
                    old(self).process_manager@.kill_step_of(before, progress),
                )
                &&& old(self).same_but_instance(final(self), at)
                &&& r->Ok_0 is Complete ==> {
                    &&& final(self).instances[at].stopped_at is Some
                    &&& final(self).instances[at]@ == before.stopped(
                        final(self).instances[at].stopped_at->0,
                    )
                    &&& final(self).process_manager@ == old(self).process_manager@.released(before)
                }
                &&& !(r->Ok_0 is Complete) ==> {
                    &&& final(self).instances[at]@ == before
                    &&& final(self).process_manager@ == old(self).process_manager@
                }
                &&& !before.status.is_active() ==> *final(self) == *old(self)
            },
            old(self).wf() ==> final(self).wf(),
    {
        self.run_command(id, Command::Kill, progress)
    }

    /// Pauses the instance `id`, which must be running (else
    /// `InvalidState`, and nothing changes); see `run_command`.
    pub fn pause_instance(&mut self, id: InstanceId, progress: Progress) -> (r: Result<
        Step,
        CoreError,
    >)
        ensures
            !old(self).has_instance(id) ==> r == Err::<Step, CoreError>(CoreError::NotFound)
                && *final(self) == *old(self),
            old(self).has_instance(id) && old(self).instance(id).status != InstanceStatus::Running
                ==> r == Err::<Step, CoreError>(CoreError::InvalidState) && *final(self) == *old(
                self,
            ),
            old(self).has_instance(id) && old(self).instance(id).status == InstanceStatus::Running
                ==> {
                let at = index_of(old(self).instances@, id);
                let before = old(self).instances[at]@;
                &&& r == Ok::<Step, CoreError>(
                    old(self).process_manager@.signal_step_of(
                        PlatformOp::Suspend,
                        before,
                        progress,
                    ),
                )
                &&& old(self).same_but_instance(final(self), at)
                &&& final(self).process_manager@ == old(self).process_manager@
                &&& final(self).instances[at]@ == if r->Ok_0 is Complete {
                    InstanceView { status: InstanceStatus::Paused, ..before }
                } else {
                    before
                }
            },
            old(self).wf() ==> final(self).wf(),
    {
        self.run_command(id, Command::Pause, progress)
    }

    /// Resumes the instance `id`, which must be paused (else `InvalidState`,
    /// and nothing changes); see `run_command`.
    pub fn resume_instance(&mut self, id: InstanceId, progress: Progress) -> (r: Result<
        Step,
        CoreError,
    >)
        ensures
            !old(self).has_instance(id) ==> r == Err::<Step, CoreError>(CoreError::NotFound)
                && *final(self) == *old(self),
            old(self).has_instance(id) && old(self).instance(id).status != InstanceStatus::Paused
                ==> r == Err::<Step, CoreError>(CoreError::InvalidState) && *final(self) == *old(
                self,
            ),
            old(self).has_instance(id) && old(self).instance(id).status == InstanceStatus::Paused
                ==> {
                let at = index_of(old(self).instances@, id);
                let before = old(self).instances[at]@;
                &&& r == Ok::<Step, CoreError>(
                    old(self).process_manager@.signal_step_of(PlatformOp::Resume, before, progress),
                )
                &&& old(self).same_but_instance(final(self), at)
                &&& final(self).process_manager@ == old(self).process_manager@
                &&& final(self).instances[at]@ == if r->Ok_0 is Complete {
                    InstanceView { status: InstanceStatus::Running, ..before }
                } else {
                    before
                }
            },
            old(self).wf() ==> final(self).wf(),
    {
        self.run_command(id, Command::Resume, progress)
    }
}

/// The list of executables used last after `path` was used: `path` first,
/// then the others in their order, and no more than ten in all.
pub open spec fn recent_with(recent: Seq<Seq<char>>, path: Seq<char>) -> Seq<Seq<char>> {
    let listed = seq![path] + recent.filter(|p: Seq<char>| p != path);
    if listed.len() > MAX_RECENT_APPS {
        listed.take(MAX_RECENT_APPS as int)
    } else {
        listed
    }
}

/// What the first part of a creation answers.
#[derive(Debug)]
pub enum Creation {
    /// The instance is created and stored, and was not to be started.
    Created(InstanceId),
    /// The instance is created and waits for its launch: carry out the
    /// request and hand the outcome to `AppState::finish_create`.
    Launch { id: InstanceId, request: LaunchRequest },
}

/// What is left to do once an instance is removed.
#[derive(Debug)]
pub struct Removal {
    /// The private data directory to delete, where the data was to be
    /// cleaned up. A failure to delete it is only logged.
    pub data_directory: Option<String>,
}

impl AppState {
    /// Notes that the executable `path` was used: it moves to the front of
    /// the list of recent executables, which keeps its ten latest entries.
    pub fn add_recent_app(&mut self, path: &String)
        ensures
            final(self).recent_apps.deep_view() == recent_with(
                old(self).recent_apps.deep_view(),
                path@,
            ),
            *final(self) == (AppState { recent_apps: final(self).recent_apps, ..*old(self) }),
            old(self).wf() ==> final(self).wf(),
    {
        let ghost before = self.recent_apps.deep_view();
        let ghost differs = |p: Seq<char>| p != path@;
        let mut listed: Vec<String> = Vec::new();
        listed.push(path.clone());
        let mut i: usize = 0;
        assert(before.take(0) =~= Seq::<Seq<char>>::empty());
        assert(listed.deep_view() =~= seq![path@] + before.take(0).filter(differs));
        while i < self.recent_apps.len()
            invariant
                i <= self.recent_apps.len(),
                before == self.recent_apps.deep_view(),
                differs == |p: Seq<char>| p != path@,
                listed.deep_view() == seq![path@] + before.take(i as int).filter(differs),
            decreases self.recent_apps.len() - i,
        {
            proof {
                assert(before.take(i + 1).drop_last() =~= before.take(i as int));
                assert(before.take(i + 1).last() == self.recent_apps[i as int]@);
                reveal(Seq::filter);
                assert(before.take(i + 1).filter(differs) == if differs(before[i as int]) {
                    before.take(i as int).filter(differs).push(before[i as int])
                } else {
                    before.take(i as int).filter(differs)
                });
            }
            if !(self.recent_apps[i] == *path) {
                let ghost so_far = listed.deep_view();
                listed.push(self.recent_apps[i].clone());
                assert(listed.deep_view() =~= so_far.push(before[i as int]));
            }
            assert(listed.deep_view() =~= seq![path@] + before.take(i + 1).filter(differs));
            i += 1;
        }
        proof {
            assert(before.take(self.recent_apps.len() as int) =~= before);
        }
        if listed.len() > MAX_RECENT_APPS {
            let ghost full = listed.deep_view();
            listed.truncate(MAX_RECENT_APPS);
            assert(listed.deep_view() =~= full.take(MAX_RECENT_APPS as int));
        }
        self.recent_apps = listed;
    }

    /// Checks that the instance `id` can be launched, and puts the launch
    /// together. Nothing changes. An unknown identifier and a missing
    /// executable are `NotFound`; an instance that is live already is
    /// `InvalidState`.
    pub fn start_instance(&self, id: InstanceId, executable_exists: bool) -> (r: Result<
        LaunchRequest,
        CoreError,
    >)
        ensures
            !self.has_instance(id) ==> r == Err::<LaunchRequest, CoreError>(CoreError::NotFound),
            self.has_instance(id) && self.instance(id).status.is_active() ==> r == Err::<
                LaunchRequest,
                CoreError,
            >(CoreError::InvalidState),
            self.has_instance(id) && !self.instance(id).status.is_active() && !executable_exists
                ==> r == Err::<LaunchRequest, CoreError>(CoreError::NotFound),
            self.has_instance(id) && !self.instance(id).status.is_active() && executable_exists
                ==> r is Ok && exists|parent: Option<Seq<char>>|
                r->Ok_0@ == launch_request_of(
                    self.process_manager.instance_data_dir@,
                    self.process_manager.family,
                    self.instance(id)@,
                    parent,
                ),
    {
        match self.find_instance(id) {
            None => Err(CoreError::NotFound),
            Some(at) => self.process_manager.plan_spawn(&self.instances[at], executable_exists),
        }
    }

    /// Takes in the outcome of the launch of the instance `id`. A launch
    /// that gave a process marks the instance as starting with that process
    /// and answers with the best-effort work that remains. Otherwise nothing
    /// changes: for an unknown identifier (`NotFound`), for an instance that
    /// is live already (`InvalidState`), and for a failed launch (the
    /// failure).
    pub fn finish_start(&mut self, id: InstanceId, launched: Result<u32, PlatformError>) -> (r:
        Result<PostLaunch, CoreError>)
        ensures
            !old(self).has_instance(id) ==> r == Err::<PostLaunch, CoreError>(CoreError::NotFound),
            old(self).has_instance(id) && old(self).instance(id).status.is_active() ==> r == Err::<
                PostLaunch,
                CoreError,
            >(CoreError::InvalidState),
            old(self).has_instance(id) && !old(self).instance(id).status.is_active() && launched is Err
                ==> r == Err::<PostLaunch, CoreError>(CoreError::of_platform(launched->Err_0)),
            r is Err ==> *final(self) == *old(self),
            old(self).has_instance(id) && !old(self).instance(id).status.is_active() && launched is Ok
                ==> {
                let at = index_of(old(self).instances@, id);
                let before = old(self).instances[at]@;
                &&& r is Ok
                &&& r->Ok_0.pid == launched->Ok_0
                &&& r->Ok_0.limits@ == crate::process::limit_steps_of(
                    old(self).process_manager.family,
                    launched->Ok_0,
                    before.config.resource_limits,
                )
                &&& r->Ok_0.background@ == crate::process::background_tasks_of(
                    old(self).process_manager.family,
                    launched->Ok_0,
                    before.config,
                )
                &&& old(self).same_but_instance(final(self), at)
                &&& final(self).instances[at].started_at is Some
                &&& final(self).instances[at]@ == before.started(
                    launched->Ok_0,
                    final(self).instances[at].started_at->0,
                )
                &&& final(self).process_manager@ == (ProcessManagerView {
                    children: old(self).process_manager@.children.insert(id.0),
                    ..old(self).process_manager@
                })
            },
            old(self).wf() ==> final(self).wf(),
    {
        let at = match self.find_instance(id) {
            Some(at) => at,
            None => {
                return Err(CoreError::NotFound);
            },
        };
        if self.instances[at].status.is_active() {
            return Err(CoreError::InvalidState);
        }
        let error = match launched {
            Err(error) => Some(error),
            Ok(_) => None,
        };
        if let Some(error) = error {
            return Err(CoreError::from_platform(error));
        }
        let mut instance = self.instances.remove(at);
        let r = self.process_manager.spawn(&mut instance, launched);
        self.instances.insert(at, instance);
        proof {
            assert(final(self).instances@ =~= old(self).instances@.update(at as int, instance));
        }
        r
    }

    /// Checks that the instance `id` can be removed: it exists (else
    /// `NotFound`) and is not live (else `InvalidState`).
    pub fn check_removable(&self, id: InstanceId) -> (r: Result<(), CoreError>)
        ensures
            r == if !self.has_instance(id) {
                Err::<(), CoreError>(CoreError::NotFound)
            } else if self.instance(id).status.is_active() {
                Err(CoreError::InvalidState)
            } else {
                Ok(())
            },
    {
        match self.find_instance(id) {
            None => Err(CoreError::NotFound),
            Some(at) => if self.instances[at].status.is_active() {
                Err(CoreError::InvalidState)
            } else {
                Ok(())
            },
        }
    }

    /// Removes the instance `id`. A live instance cannot be removed: the
    /// answer is `InvalidState` and nothing changes, as for an unknown
    /// identifier (`NotFound`). Where the data is to be cleaned up, the
    /// answer names the private data directory to delete.
    pub fn remove_instance(&mut self, id: InstanceId, cleanup_data: bool) -> (r: Result<
        Removal,
        CoreError,
    >)
        ensures
            !old(self).has_instance(id) ==> r == Err::<Removal, CoreError>(CoreError::NotFound),
            old(self).has_instance(id) && old(self).instance(id).status.is_active() ==> r == Err::<
                Removal,
                CoreError,
            >(CoreError::InvalidState),
            r is Err ==> *final(self) == *old(self),
            old(self).has_instance(id) && !old(self).instance(id).status.is_active() ==> {
                &&& r is Ok
                &&& r->Ok_0.data_directory.deep_view() == if cleanup_data {
                    Some(
                        child_path(
                            old(self).process_manager.instance_data_dir@,
                            hyphenated_text(id.0),
                        ),
                    )
                } else {
                    None::<Seq<char>>
                }
                &&& final(self).instances@ == old(self).instances@.remove(
                    index_of(old(self).instances@, id),
                )
                &&& *final(self) == (AppState { instances: final(self).instances, ..*old(self) })
            },
            old(self).wf() ==> final(self).wf(),
    {
        let at = match self.find_instance(id) {
            Some(at) => at,
            None => {
                return Err(CoreError::NotFound);
            },
        };
        if self.instances[at].status.is_active() {
            return Err(CoreError::InvalidState);
        }
        let data_directory = if cleanup_data {
            Some(self.process_manager.cleanup_instance_data(id))
        } else {
            None
        };
        self.instances.remove(at);
        Ok(Removal { data_directory })
    }
}


/// What a creation under the identifier `id` at the time `now` answers, and
/// how it leaves the state.
///
/// The executable is noted as used, whatever follows. A start of an
/// executable that does not exist is `NotFound`, and an identifier that is
/// taken is `InvalidState`; neither creates anything. Otherwise the new
/// instance, stopped and without a process, is stored at once where no start
/// is asked for, and waits for its launch, with the launch request as the
/// answer, where one is.
pub open spec fn creation_outcome(
    before: AppState,
    id: InstanceId,
    now: Timestamp,
    config: InstanceConfigView,
    start: bool,
    executable_exists: bool,
    answer: Result<Creation, CoreError>,
    after: AppState,
) -> bool {
    &&& after.recent_apps.deep_view() == recent_with(
        before.recent_apps.deep_view(),
        config.executable_path,
    )
    &&& after == (AppState {
        instances: after.instances,
        pending: after.pending,
        recent_apps: after.recent_apps,
        ..before
    })
    &&& if start && !executable_exists {
        &&& answer == Err::<Creation, CoreError>(CoreError::NotFound)
        &&& after.instances == before.instances
        &&& after.pending == before.pending
    } else if before.id_is_taken(id) {
        &&& answer == Err::<Creation, CoreError>(CoreError::InvalidState)
        &&& after.instances == before.instances
        &&& after.pending == before.pending
    } else if !start {
        &&& answer == Ok::<Creation, CoreError>(Creation::Created(id))
        &&& after.pending == before.pending
        &&& after.instances@.len() == before.instances@.len() + 1
        &&& after.instances@.drop_last() == before.instances@
        &&& after.instances@.last()@ == InstanceView::created(id, config, now)
    } else {
        &&& answer is Ok
        &&& answer->Ok_0 is Launch
        &&& answer->Ok_0->Launch_id == id
        &&& after.instances == before.instances
        &&& after.pending@.len() == before.pending@.len() + 1
        &&& after.pending@.drop_last() == before.pending@
        &&& after.pending@.last()@ == InstanceView::created(id, config, now)
        &&& exists|parent: Option<Seq<char>>|
            answer->Ok_0->Launch_request@ == launch_request_of(
                before.process_manager.instance_data_dir@,
                before.process_manager.family,
                InstanceView::created(id, config, now),
                parent,
            )
    }
}

impl AppState {
    /// Finds the instance with the identifier `id` among those that wait for
    /// their first launch.
    pub fn find_pending(&self, id: InstanceId) -> (r: Option<usize>)
        ensures
            r is Some ==> r->0 < self.pending@.len() && self.pending[r->0 as int].id == id
                && r->0 as int == index_of(self.pending@, id),
            r is None ==> index_of(self.pending@, id) == self.pending@.len(),
            r is None ==> forall|k: int| 0 <= k < self.pending@.len() ==> self.pending[k].id != id,
    {
        let ghost all = self.pending@;
        let mut i: usize = 0;
        assert(all.skip(0) =~= all);
        proof {
            lemma_index_of(all, id);
        }
        while i < self.pending.len()
            invariant
                i <= self.pending.len(),
                all == self.pending@,
                index_of(all, id) == i + index_of(all.skip(i as int), id),
            decreases self.pending.len() - i,
        {
            proof {
                assert(all.skip(i as int)[0] == self.pending[i as int]);
                assert(all.skip(i as int).drop_first() =~= all.skip(i + 1));
            }
            if self.pending[i].id == id {
                return Some(i);
            }
            i += 1;
        }
        proof {
            assert(all.skip(i as int).len() == 0);
        }
        None
    }

    /// Creates an instance from `config` under the identifier `id` at the
    /// time `now`, and begins its start if `start` says so;
    /// `creation_outcome` says what is answered and what changes. The
    /// outcome of a launch goes to `finish_create`.
    pub fn create_instance_with(
        &mut self,
        id: InstanceId,
        now: Timestamp,
        config: InstanceConfig,
        start: bool,
        executable_exists: bool,
    ) -> (r: Result<Creation, CoreError>)
        ensures
            creation_outcome(
                *old(self),
                id,
                now,
                config@,
                start,
                executable_exists,
                r,
                *final(self),
            ),
            old(self).wf() ==> final(self).wf(),
    {
        self.add_recent_app(&config.executable_path);
        if start && !executable_exists {
            return Err(CoreError::NotFound);
        }
        proof {
            lemma_index_of(self.instances@, id);
            lemma_index_of(self.pending@, id);
        }
        if self.find_instance(id).is_some() || self.find_pending(id).is_some() {
            return Err(CoreError::InvalidState);
        }
        let instance = Instance::with_identity(id, config, now);
        if !start {
            self.instances.push(instance);
            proof {
                assert(final(self).instances@.drop_last() =~= old(self).instances@);
            }
            return Ok(Creation::Created(id));
        }
        match self.process_manager.plan_spawn(&instance, executable_exists) {
            Ok(request) => {
                self.pending.push(instance);
                proof {
                    assert(final(self).pending@.drop_last() =~= old(self).pending@);
                }
                Ok(Creation::Launch { id, request })
            },
            Err(error) => {
                proof {
                    assert(false);
                }
                Err(error)
            },
        }
    }

    /// Creates an instance from `config` under a fresh identifier, now, and
    /// begins its start if `start` says so.
    ///
    /// The identifier is drawn at random and the time is read off the clock;
    /// for what was drawn and read, `creation_outcome` says what is answered
    /// and what changes. A start of an executable that does not exist is
    /// `NotFound`. Any other creation succeeds unless the identifier drawn
    /// is taken, which is `InvalidState` and cannot happen while no instance
    /// is stored or waiting.
    pub fn create_instance(&mut self, config: InstanceConfig, start: bool, executable_exists: bool) -> (r:
        Result<Creation, CoreError>)
        ensures
            exists|id: InstanceId, now: Timestamp|
                creation_outcome(
                    *old(self),
                    id,
                    now,
                    config@,
                    start,
                    executable_exists,
                    r,
                    *final(self),
                ),
            start && !executable_exists ==> r == Err::<Creation, CoreError>(CoreError::NotFound),
            !(start && !executable_exists) && old(self).instances@.len() == 0
                && old(self).pending@.len() == 0 ==> r is Ok,
            r is Err ==> final(self).instances == old(self).instances,
            r is Err ==> final(self).pending == old(self).pending,
            r is Err ==> if start && !executable_exists {
                r->Err_0 == CoreError::NotFound
            } else {
                r->Err_0 == CoreError::InvalidState
                    && old(self).instances@.len() + old(self).pending@.len() > 0
            },
            r is Ok && !start ==> {
                let made = final(self).instances@.last();
                &&& r->Ok_0 is Created
                &&& final(self).instances@.len() == old(self).instances@.len() + 1
                &&& made.id == r->Ok_0->Created_0
                &&& made.pid is None
                &&& made.status == InstanceStatus::Stopped
                &&& made.config@ == config@
            },
            r is Ok && start ==> {
                &&& r->Ok_0 is Launch
                &&& final(self).pending@.len() == old(self).pending@.len() + 1
                &&& final(self).pending@.last().id == r->Ok_0->Launch_id
            },
            old(self).wf() ==> final(self).wf(),
    {
        let id = InstanceId::new();
        let now = Timestamp::now();
        proof {
            lemma_index_of(self.instances@, id);
            lemma_index_of(self.pending@, id);
        }
        self.create_instance_with(id, now, config, start, executable_exists)
    }

    /// Takes in the outcome of the launch that a creation asked for under
    /// the identifier `id`. The instance no longer waits. A launch that gave
    /// a process stores the instance, starting with that process, and
    /// answers with the best-effort work that remains. A failed launch
    /// discards the instance and answers with the failure. With no creation
    /// waiting under `id` the answer is `NotFound` and nothing changes.
    pub fn finish_create(&mut self, id: InstanceId, launched: Result<u32, PlatformError>) -> (r:
        Result<PostLaunch, CoreError>)
        ensures
            index_of(old(self).pending@, id) == old(self).pending@.len() ==> r == Err::<
                PostLaunch,
                CoreError,
            >(CoreError::NotFound) && *final(self) == *old(self),
            index_of(old(self).pending@, id) < old(self).pending@.len() ==> {
                let at = index_of(old(self).pending@, id);
                let waiting = old(self).pending[at];
                &&& final(self).pending@ == old(self).pending@.remove(at)
                &&& waiting.status.is_active() ==> r == Err::<PostLaunch, CoreError>(
                    CoreError::InvalidState,
                )
                &&& !waiting.status.is_active() && launched is Err ==> r == Err::<
                    PostLaunch,
                    CoreError,
                >(CoreError::of_platform(launched->Err_0))
                &&& r is Err ==> *final(self) == (AppState {
                    pending: final(self).pending,
                    ..*old(self)
                })
                &&& !waiting.status.is_active() && launched is Ok ==> {
                    &&& r is Ok
                    &&& r->Ok_0.pid == launched->Ok_0
                    &&& r->Ok_0.limits@ == crate::process::limit_steps_of(
                        old(self).process_manager.family,
                        launched->Ok_0,
                        waiting@.config.resource_limits,
                    )
                    &&& r->Ok_0.background@ == crate::process::background_tasks_of(
                        old(self).process_manager.family,
                        launched->Ok_0,
                        waiting@.config,
                    )
                    &&& final(self).instances@.len() == old(self).instances@.len() + 1
                    &&& final(self).instances@.drop_last() == old(self).instances@
                    &&& final(self).instances@.last().started_at is Some
                    &&& final(self).instances@.last()@ == waiting@.started(
                        launched->Ok_0,
                        final(self).instances@.last().started_at->0,
                    )
                    &&& final(self).process_manager@ == (ProcessManagerView {
                        children: old(self).process_manager@.children.insert(id.0),
                        ..old(self).process_manager@
                    })
                    &&& *final(self) == (AppState {
                        instances: final(self).instances,
                        pending: final(self).pending,
                        process_manager: final(self).process_manager,
                        ..*old(self)
                    })
                }
            },
            old(self).wf() ==> final(self).wf(),
    {
        proof {
            lemma_index_of(self.pending@, id);
        }
        let at = match self.find_pending(id) {
            Some(at) => at,
            None => {
                return Err(CoreError::NotFound);
            },
        };
        let mut instance = self.pending.remove(at);
        if instance.status.is_active() {
            return Err(CoreError::InvalidState);
        }
        let error = match launched {
            Err(error) => Some(error),
            Ok(_) => None,
        };
        if let Some(error) = error {
            return Err(CoreError::from_platform(error));
        }
        match self.process_manager.spawn(&mut instance, launched) {
            Ok(post) => {
                self.instances.push(instance);
                proof {
                    assert(final(self).instances@.drop_last() =~= old(self).instances@);
                }
                Ok(post)
            },
            Err(error) => Err(error),
        }
    }
}

/// A choice among the instances.
#[derive(Debug, Clone, Copy, PartialEq, Eq, Structural)]
pub enum Selection {
    /// Every instance.
    All,
    /// The live instances.
    Active,
    /// The running instances.
    Running,
    /// The paused instances.
    Paused,
    /// The instances with a known process id.
    WithProcess,
    /// The crashed instances that are to be respawned.
    AwaitingRestart,
}

impl Selection {
    /// Whether the choice takes in `instance`.
    pub open spec fn holds(self, instance: InstanceView) -> bool {
        match self {
            Selection::All => true,
            Selection::Active => instance.status.is_active(),
            Selection::Running => instance.status == InstanceStatus::Running,
            Selection::Paused => instance.status == InstanceStatus::Paused,
            Selection::WithProcess => instance.pid is Some,
            Selection::AwaitingRestart => instance.should_auto_restart(),
        }
    }

    /// Whether the choice takes in `instance`.
    pub fn includes(self, instance: &Instance) -> (r: bool)
        ensures
            r == self.holds(instance@),
    {
        match self {
            Selection::All => true,
            Selection::Active => instance.status.is_active(),
            Selection::Running => matches!(instance.status, InstanceStatus::Running),
            Selection::Paused => matches!(instance.status, InstanceStatus::Paused),
            Selection::WithProcess => instance.pid.is_some(),
            Selection::AwaitingRestart => instance.should_auto_restart(),
        }
    }
}

/// The instances that `selection` takes in, in their order.
pub open spec fn selected(instances: Seq<Instance>, selection: Selection) -> Seq<Instance>
    decreases instances.len(),
{
    if instances.len() == 0 {
        Seq::empty()
    } else if selection.holds(instances.last()@) {
        selected(instances.drop_last(), selection).push(instances.last())
    } else {
        selected(instances.drop_last(), selection)
    }
}

impl AppState {
    /// Carries the liveness check of the instance `id` one step further;
    /// `check_outcome_of` says how. An unknown identifier is `NotFound`.
    pub fn check_instance(&mut self, id: InstanceId, progress: CheckProgress) -> (r: Result<
        CheckStep,
        CoreError,
    >)
        ensures
            !old(self).has_instance(id) ==> r == Err::<CheckStep, CoreError>(CoreError::NotFound)
                && *final(self) == *old(self),
            old(self).has_instance(id) ==> {
                let at = index_of(old(self).instances@, id);
                &&& r is Ok
                &&& old(self).same_but_instance(final(self), at)
                &&& reports_exit(progress) ==> final(self).instances[at].stopped_at is Some
                &&& (r->Ok_0, final(self).instances[at]@, final(self).process_manager@)
                    == check_outcome_of(
                    old(self).process_manager@,
                    old(self).instances[at]@,
                    progress,
                    exit_stamp_of(final(self).instances[at].stopped_at),
                )
            },
            old(self).wf() ==> final(self).wf(),
    {
        let at = match self.find_instance(id) {
            Some(at) => at,
            None => {
                return Err(CoreError::NotFound);
            },
        };
        let mut instance = self.instances.remove(at);
        let step = self.process_manager.check_process(&mut instance, progress);
        self.instances.insert(at, instance);
        proof {
            assert(final(self).instances@ =~= old(self).instances@.update(at as int, instance));
        }
        Ok(step)
    }

    /// Overwrites the resource snapshot of the instance `id` with what the
    /// last poll saw of its process, and says whether it did. It does so
    /// only for a live instance whose process was just found alive and was
    /// seen by the poll; otherwise nothing changes. An unknown identifier is
    /// `NotFound`.
    pub fn refresh_instance_usage(&mut self, id: InstanceId, alive: bool) -> (r: Result<
        bool,
        CoreError,
    >)
        ensures
            !old(self).has_instance(id) ==> r == Err::<bool, CoreError>(CoreError::NotFound),
            old(self).has_instance(id) ==> {
                let at = index_of(old(self).instances@, id);
                let before = old(self).instances[at]@;
                let seen = match before.pid {
                    Some(pid) => find_process(old(self).resource_monitor.sample.processes@, pid),
                    None => None,
                };
                &&& r == Ok::<bool, CoreError>(alive && before.status.is_active() && seen is Some)
                &&& r->Ok_0 ==> {
                    &&& old(self).same_but_instance(final(self), at)
                    &&& final(self).process_manager == old(self).process_manager
                    &&& final(self).instances[at]@ == (InstanceView {
                        resource_usage: usage_of(seen->0),
                        ..before
                    })
                }
            },
            !(r is Ok && r->Ok_0) ==> *final(self) == *old(self),
            old(self).wf() ==> final(self).wf(),
    {
        let at = match self.find_instance(id) {
            Some(at) => at,
            None => {
                return Err(CoreError::NotFound);
            },
        };
        if !alive || !self.instances[at].status.is_active() {
            return Ok(false);
        }
        let pid = match self.instances[at].pid {
            Some(pid) => pid,
            None => {
                return Ok(false);
            },
        };
        let usage = match self.resource_monitor.get_process_usage(pid) {
            Some(usage) => usage,
            None => {
                return Ok(false);
            },
        };
        let mut instance = self.instances.remove(at);
        instance.update_resource_usage(usage);
        self.instances.insert(at, instance);
        proof {
            assert(final(self).instances@ =~= old(self).instances@.update(at as int, instance));
        }
        Ok(true)
    }

    /// The identifiers of the instances that `selection` takes in, in the
    /// order of their creation.
    pub fn select_ids(&self, selection: Selection) -> (r: Vec<InstanceId>)
        ensures
            r@ == selected(self.instances@, selection).map_values(|i: Instance| i.id),
    {
        let mut r: Vec<InstanceId> = Vec::new();
        let mut i: usize = 0;
        assert(self.instances@.take(0) =~= Seq::<Instance>::empty());
        while i < self.instances.len()
            invariant
                i <= self.instances.len(),
                r@ == selected(self.instances@.take(i as int), selection).map_values(
                    |i: Instance| i.id,
                ),
            decreases self.instances.len() - i,
        {
            proof {
                assert(self.instances@.take(i + 1).drop_last() =~= self.instances@.take(i as int));
                assert(self.instances@.take(i + 1).last() == self.instances[i as int]);
            }
            if selection.includes(&self.instances[i]) {
                r.push(self.instances[i].id);
            }
            proof {
                assert(r@ =~= selected(self.instances@.take(i + 1), selection).map_values(
                    |i: Instance| i.id,
                ));
            }
            i += 1;
        }
        proof {
            assert(self.instances@.take(self.instances.len() as int) =~= self.instances@);
        }
        r
    }

    /// The identifiers of all instances, in the order of their creation:
    /// the targets of "stop all".
    pub fn instance_ids(&self) -> (r: Vec<InstanceId>)
        ensures
            r@ == selected(self.instances@, Selection::All).map_values(|i: Instance| i.id),
    {
        self.select_ids(Selection::All)
    }

    /// The identifiers of the running instances, in the order of their
    /// creation: the targets of "pause all".
    pub fn running_instance_ids(&self) -> (r: Vec<InstanceId>)
        ensures
            r@ == selected(self.instances@, Selection::Running).map_values(|i: Instance| i.id),
    {
        self.select_ids(Selection::Running)
    }

    /// The identifiers of the paused instances, in the order of their
    /// creation: the targets of "resume all".
    pub fn paused_instance_ids(&self) -> (r: Vec<InstanceId>)
        ensures
            r@ == selected(self.instances@, Selection::Paused).map_values(|i: Instance| i.id),
    {
        self.select_ids(Selection::Paused)
    }

    /// The identifiers of the instances with a known process id, in the
    /// order of their creation: the ones whose liveness and resource usage a
    /// resource update looks at.
    pub fn monitored_instance_ids(&self) -> (r: Vec<InstanceId>)
        ensures
            r@ == selected(self.instances@, Selection::WithProcess).map_values(
                |i: Instance| i.id,
            ),
    {
        self.select_ids(Selection::WithProcess)
    }
}


/// One instance to respawn after a crash, and how long to wait first.
#[derive(Debug, Clone, Copy, PartialEq, Eq, Structural)]
pub struct RestartPlan {
    /// The instance.
    pub id: InstanceId,
    /// Seconds to wait before the respawn.
    pub delay_secs: u32,
}

/// The respawn that a crashed instance asks for.
pub open spec fn restart_plan_of(instance: Instance) -> RestartPlan {
    RestartPlan { id: instance.id, delay_secs: instance.config.restart_delay_secs }
}

/// The counter of respawns after one more respawn.
pub open spec fn next_restart_count(count: u32) -> u32 {
    if count == u32::MAX {
        u32::MAX
    } else {
        (count + 1) as u32
    }
}

impl AppState {
    /// The respawns that are due: one for every crashed instance that is
    /// configured to restart, in the order of the instances, each with the
    /// delay of its configuration. The caller takes them one by one: it
    /// waits for the delay, calls `begin_auto_restart`, launches, and hands
    /// the outcome to `finish_start`. One respawn that fails does not keep
    /// the others from being tried.
    pub fn handle_auto_restarts(&self) -> (r: Vec<RestartPlan>)
        ensures
            r@ == selected(self.instances@, Selection::AwaitingRestart).map_values(
                |i: Instance| restart_plan_of(i),
            ),
    {
        let mut r: Vec<RestartPlan> = Vec::new();
        let mut i: usize = 0;
        assert(self.instances@.take(0) =~= Seq::<Instance>::empty());
        while i < self.instances.len()
            invariant
                i <= self.instances.len(),
                r@ == selected(self.instances@.take(i as int), Selection::AwaitingRestart).map_values(
                    |i: Instance| restart_plan_of(i),
                ),
            decreases self.instances.len() - i,
        {
            proof {
                assert(self.instances@.take(i + 1).drop_last() =~= self.instances@.take(i as int));
                assert(self.instances@.take(i + 1).last() == self.instances[i as int]);
            }
            let instance = &self.instances[i];
            if instance.should_auto_restart() {
                r.push(
                    RestartPlan { id: instance.id, delay_secs: instance.config.restart_delay_secs },
                );
            }
            proof {
                assert(r@ =~= selected(
                    self.instances@.take(i + 1),
                    Selection::AwaitingRestart,
                ).map_values(|i: Instance| restart_plan_of(i)));
            }
            i += 1;
        }
        proof {
            assert(self.instances@.take(self.instances.len() as int) =~= self.instances@);
        }
        r
    }

    /// Begins the respawn of the instance `id` once its delay has passed:
    /// counts the respawn and puts the launch together. The respawn is
    /// counted, by exactly one, even where the launch cannot be put together
    /// because the executable is gone (`NotFound`). An instance that no
    /// longer waits for a respawn is `InvalidState`, an unknown identifier
    /// `NotFound`; neither changes anything.
    pub fn begin_auto_restart(&mut self, id: InstanceId, executable_exists: bool) -> (r: Result<
        LaunchRequest,
        CoreError,
    >)
        ensures
            !old(self).has_instance(id) ==> r == Err::<LaunchRequest, CoreError>(
                CoreError::NotFound,
            ) && *final(self) == *old(self),
            old(self).has_instance(id) && !old(self).instance(id)@.should_auto_restart() ==> r
                == Err::<LaunchRequest, CoreError>(CoreError::InvalidState) && *final(self) == *old(
                self,
            ),
            old(self).has_instance(id) && old(self).instance(id)@.should_auto_restart() ==> {
                let at = index_of(old(self).instances@, id);
                let before = old(self).instances[at]@;
                &&& old(self).same_but_instance(final(self), at)
                &&& final(self).process_manager == old(self).process_manager
                &&& final(self).instances[at]@ == (InstanceView {
                    restart_count: next_restart_count(before.restart_count),
                    ..before
                })
                &&& !executable_exists ==> r == Err::<LaunchRequest, CoreError>(CoreError::NotFound)
                &&& executable_exists ==> r is Ok && exists|parent: Option<Seq<char>>|
                    r->Ok_0@ == launch_request_of(
                        old(self).process_manager.instance_data_dir@,
                        old(self).process_manager.family,
                        final(self).instances[at]@,
                        parent,
                    )
            },
            old(self).wf() ==> final(self).wf(),
    {
        let at = match self.find_instance(id) {
            Some(at) => at,
            None => {
                return Err(CoreError::NotFound);
            },
        };
        if !self.instances[at].should_auto_restart() {
            return Err(CoreError::InvalidState);
        }
        let mut instance = self.instances.remove(at);
        instance.increment_restart_count();
        let r = self.process_manager.plan_spawn(&instance, executable_exists);
        self.instances.insert(at, instance);
        proof {
            assert(final(self).instances@ =~= old(self).instances@.update(at as int, instance));
        }
        r
    }
}


/// One step of the launch of a profile.
#[derive(Debug)]
pub enum ProfileStep {
    /// Wait for this many milliseconds.
    Delay(u64),
    /// Create an instance from this configuration and start it.
    Create(InstanceConfig),
}

/// What a `ProfileStep` holds, as plain values.
pub enum ProfileStepView {
    Delay(u64),
    Create(InstanceConfigView),
}

impl View for ProfileStep {
    type V = ProfileStepView;

    open spec fn view(&self) -> ProfileStepView {
        match self {
            ProfileStep::Delay(ms) => ProfileStepView::Delay(*ms),
            ProfileStep::Create(config) => ProfileStepView::Create(config@),
        }
    }
}

impl DeepView for ProfileStep {
    type V = ProfileStepView;

    open spec fn deep_view(&self) -> ProfileStepView {
        self@
    }
}

/// The steps that launch the configurations of a profile: one creation for
/// each configuration, in the order of the list, and, where the launch is
/// staggered, one delay between every two creations.
pub open spec fn launch_steps_of(configs: Seq<InstanceConfigView>, staggered: bool, delay_ms: u64) -> Seq<
    ProfileStepView,
>
    decreases configs.len(),
{
    if configs.len() == 0 {
        Seq::empty()
    } else if staggered && configs.len() > 1 {
        launch_steps_of(configs.drop_last(), staggered, delay_ms).push(
            ProfileStepView::Delay(delay_ms),
        ).push(ProfileStepView::Create(configs.last()))
    } else {
        launch_steps_of(configs.drop_last(), staggered, delay_ms).push(
            ProfileStepView::Create(configs.last()),
        )
    }
}

/// The configurations of the live instances, in their order.
pub open spec fn active_configs_of(instances: Seq<Instance>) -> Seq<InstanceConfigView> {
    selected(instances, Selection::Active).map_values(|i: Instance| i.config@)
}

impl AppState {
    /// Finds the profile with the identifier `id`.
    pub fn find_profile(&self, id: ProfileId) -> (r: Option<usize>)
        ensures
            r is Some ==> r->0 < self.profiles@.len() && self.profiles[r->0 as int].id == id
                && r->0 as int == profile_index_of(self.profiles@, id),
            r is None ==> profile_index_of(self.profiles@, id) == self.profiles@.len(),
            r is None ==> forall|k: int| 0 <= k < self.profiles@.len() ==> self.profiles[k].id != id,
    {
        let ghost all = self.profiles@;
        let mut i: usize = 0;
        assert(all.skip(0) =~= all);
        proof {
            lemma_profile_index_of(all, id);
        }
        while i < self.profiles.len()
            invariant
                i <= self.profiles.len(),
                all == self.profiles@,
                profile_index_of(all, id) == i + profile_index_of(all.skip(i as int), id),
            decreases self.profiles.len() - i,
        {
            proof {
                assert(all.skip(i as int)[0] == self.profiles[i as int]);
                assert(all.skip(i as int).drop_first() =~= all.skip(i + 1));
            }
            if self.profiles[i].id == id {
                return Some(i);
            }
            i += 1;
        }
        proof {
            assert(all.skip(i as int).len() == 0);
        }
        None
    }

    /// Begins the launch of the profile `id`: notes that the profile was
    /// used, and answers with the steps of the launch, which the caller
    /// carries out in order after letting go of the state. Every creation
    /// is of a new instance. A creation that fails ends the launch. An
    /// unknown identifier is `NotFound` and changes nothing.
    pub fn launch_profile(&mut self, id: ProfileId) -> (r: Result<Vec<ProfileStep>, CoreError>)
        ensures
            profile_index_of(old(self).profiles@, id) == old(self).profiles@.len() ==> r == Err::<
                Vec<ProfileStep>,
                CoreError,
            >(CoreError::NotFound) && *final(self) == *old(self),
            profile_index_of(old(self).profiles@, id) < old(self).profiles@.len() ==> {
                let at = profile_index_of(old(self).profiles@, id);
                let before = old(self).profiles[at];
                &&& r is Ok
                &&& r->Ok_0.deep_view() == launch_steps_of(
                    before.instances.deep_view(),
                    before.staggered_launch,
                    before.launch_delay_ms as u64,
                )
                &&& final(self).profiles@.len() == old(self).profiles@.len()
                &&& forall|k: int|
                    0 <= k < old(self).profiles@.len() && k != at ==> final(self).profiles[k] == old(
                        self,
                    ).profiles[k]
                &&& final(self).profiles[at].last_used_at is Some
                &&& final(self).profiles[at] == (Profile {
                    last_used_at: final(self).profiles[at].last_used_at,
                    launch_count: next_restart_count(before.launch_count),
                    ..before
                })
                &&& *final(self) == (AppState { profiles: final(self).profiles, ..*old(self) })
            },
            old(self).wf() ==> final(self).wf(),
    {
        proof {
            lemma_profile_index_of(self.profiles@, id);
        }
        let at = match self.find_profile(id) {
            Some(at) => at,
            None => {
                return Err(CoreError::NotFound);
            },
        };
        let mut profile = self.profiles.remove(at);
        profile.mark_used();
        let mut steps: Vec<ProfileStep> = Vec::new();
        let delay = profile.launch_delay_ms as u64;
        let ghost configs = profile.instances.deep_view();
        let mut i: usize = 0;
        assert(configs.take(0) =~= Seq::<InstanceConfigView>::empty());
        while i < profile.instances.len()
            invariant
                i <= profile.instances.len(),
                configs == profile.instances.deep_view(),
                delay == profile.launch_delay_ms as u64,
                steps.deep_view() == launch_steps_of(
                    configs.take(i as int),
                    profile.staggered_launch,
                    delay,
                ),
            decreases profile.instances.len() - i,
        {
            proof {
                assert(configs.take(i + 1).drop_last() =~= configs.take(i as int));
                assert(configs.take(i + 1).last() == profile.instances[i as int]@);
            }
            let ghost so_far = steps.deep_view();
            if profile.staggered_launch && i > 0 {
                steps.push(ProfileStep::Delay(delay));
                steps.push(ProfileStep::Create(profile.instances[i].clone()));
                assert(steps.deep_view() =~= so_far.push(ProfileStepView::Delay(delay)).push(
                    ProfileStepView::Create(profile.instances[i as int]@),
                ));
            } else {
                steps.push(ProfileStep::Create(profile.instances[i].clone()));
                assert(steps.deep_view() =~= so_far.push(
                    ProfileStepView::Create(profile.instances[i as int]@),
                ));
            }
            i += 1;
        }
        proof {
            assert(configs.take(profile.instances.len() as int) =~= configs);
        }
        self.profiles.insert(at, profile);
        proof {
            assert(final(self).profiles@ =~= old(self).profiles@.update(at as int, profile));
        }
        Ok(steps)
    }

    /// The configurations of the live instances, in the order of their
    /// creation: what a saved session holds, to be created and started
    /// again when the session is restored.
    pub fn save_session(&self) -> (r: Vec<InstanceConfig>)
        ensures
            r.deep_view() == active_configs_of(self.instances@),
    {
        let mut r: Vec<InstanceConfig> = Vec::new();
        let mut i: usize = 0;
        assert(self.instances@.take(0) =~= Seq::<Instance>::empty());
        while i < self.instances.len()
            invariant
                i <= self.instances.len(),
                r.deep_view() == active_configs_of(self.instances@.take(i as int)),
            decreases self.instances.len() - i,
        {
            proof {
                assert(self.instances@.take(i + 1).drop_last() =~= self.instances@.take(i as int));
                assert(self.instances@.take(i + 1).last() == self.instances[i as int]);
            }
            let ghost so_far = r.deep_view();
            if self.instances[i].status.is_active() {
                r.push(self.instances[i].config.clone());
                assert(r.deep_view() =~= so_far.push(self.instances[i as int].config@));
            }
            proof {
                assert(r.deep_view() =~= active_configs_of(self.instances@.take(i + 1)));
            }
            i += 1;
        }
        proof {
            assert(self.instances@.take(self.instances.len() as int) =~= self.instances@);
        }
        r
    }
}


impl AppState {
    /// Stores a profile: in the place of the profile with the same
    /// identifier, or else behind the others.
    pub fn save_profile(&mut self, profile: Profile)
        ensures
            final(self).profiles@ == if profile_index_of(old(self).profiles@, profile.id) < old(
                self,
            ).profiles@.len() {
                old(self).profiles@.update(profile_index_of(old(self).profiles@, profile.id), profile)
            } else {
                old(self).profiles@.push(profile)
            },
            *final(self) == (AppState { profiles: final(self).profiles, ..*old(self) }),
            old(self).wf() ==> final(self).wf(),
    {
        proof {
            lemma_profile_index_of(self.profiles@, profile.id);
        }
        match self.find_profile(profile.id) {
            Some(at) => {
                self.profiles.remove(at);
                self.profiles.insert(at, profile);
                assert(final(self).profiles@ =~= old(self).profiles@.update(at as int, profile));
            },
            None => {
                self.profiles.push(profile);
            },
        }
    }

    /// Deletes the profile `id`, and says whether there was one.
    pub fn delete_profile(&mut self, id: ProfileId) -> (r: bool)
        ensures
            r == (profile_index_of(old(self).profiles@, id) < old(self).profiles@.len()),
            final(self).profiles@ == if r {
                old(self).profiles@.remove(profile_index_of(old(self).profiles@, id))
            } else {
                old(self).profiles@
            },
            *final(self) == (AppState { profiles: final(self).profiles, ..*old(self) }),
            old(self).wf() ==> final(self).wf(),
    {
        proof {
            lemma_profile_index_of(self.profiles@, id);
        }
        match self.find_profile(id) {
            Some(at) => {
                self.profiles.remove(at);
                true
            },
            None => false,
        }
    }

    /// Appends a configuration to the quick-launch list.
    pub fn add_quick_launch(&mut self, config: InstanceConfig)
        ensures
            final(self).quick_launch@ == old(self).quick_launch@.push(config),
            *final(self) == (AppState { quick_launch: final(self).quick_launch, ..*old(self) }),
            old(self).wf() ==> final(self).wf(),
    {
        self.quick_launch.push(config);
    }

    /// Takes the configuration at `index` out of the quick-launch list. An
    /// index past the end changes nothing.
    pub fn remove_quick_launch(&mut self, index: usize)
        ensures
            final(self).quick_launch@ == if index < old(self).quick_launch@.len() {
                old(self).quick_launch@.remove(index as int)
            } else {
                old(self).quick_launch@
            },
            *final(self) == (AppState { quick_launch: final(self).quick_launch, ..*old(self) }),
            old(self).wf() ==> final(self).wf(),
    {
        if index < self.quick_launch.len() {
            self.quick_launch.remove(index);
        }
    }

    /// Adds a group unless there is one of that name already.
    pub fn add_group(&mut self, name: String)
        ensures
            old(self).groups.deep_view().contains(name@) ==> *final(self) == *old(self),
            !old(self).groups.deep_view().contains(name@) ==> final(self).groups@ == old(
                self,
            ).groups@.push(name),
            *final(self) == (AppState { groups: final(self).groups, ..*old(self) }),
            old(self).wf() ==> final(self).wf(),
    {
        let ghost all = self.groups.deep_view();
        let mut i: usize = 0;
        while i < self.groups.len()
            invariant
                i <= self.groups.len(),
                all == self.groups.deep_view(),
                *self == *old(self),
                forall|k: int| 0 <= k < i ==> all[k] != name@,
            decreases self.groups.len() - i,
        {
            if self.groups[i] == name {
                assert(all[i as int] == name@);
                return ;
            }
            i += 1;
        }
        self.groups.push(name);
    }

    /// Removes every group of the name `name`.
    pub fn remove_group(&mut self, name: &str)
        ensures
            final(self).groups.deep_view() == old(self).groups.deep_view().filter(
                |g: Seq<char>| g != name@,
            ),
            *final(self) == (AppState { groups: final(self).groups, ..*old(self) }),
            old(self).wf() ==> final(self).wf(),
    {
        let wanted = String::from_str(name);
        let ghost before = self.groups.deep_view();
        let ghost differs = |g: Seq<char>| g != name@;
        let mut kept: Vec<String> = Vec::new();
        let mut i: usize = 0;
        assert(before.take(0) =~= Seq::<Seq<char>>::empty());
        assert(kept.deep_view() =~= before.take(0).filter(differs));
        while i < self.groups.len()
            invariant
                i <= self.groups.len(),
                *self == *old(self),
                before == self.groups.deep_view(),
                wanted@ == name@,
                differs == |g: Seq<char>| g != name@,
                kept.deep_view() == before.take(i as int).filter(differs),
            decreases self.groups.len() - i,
        {
            proof {
                assert(before.take(i + 1).drop_last() =~= before.take(i as int));
                assert(before.take(i + 1).last() == self.groups[i as int]@);
                reveal(Seq::filter);
                assert(before.take(i + 1).filter(differs) == if differs(before[i as int]) {
                    before.take(i as int).filter(differs).push(before[i as int])
                } else {
                    before.take(i as int).filter(differs)
                });
            }
            if !(self.groups[i] == wanted) {
                let ghost so_far = kept.deep_view();
                kept.push(self.groups[i].clone());
                assert(kept.deep_view() =~= so_far.push(before[i as int]));
            }
            i += 1;
        }
        proof {
            assert(before.take(self.groups.len() as int) =~= before);
        }
        self.groups = kept;
    }
}


/// What a resource update is to do.
#[derive(Debug)]
pub struct ResourceUpdate {
    /// Whether the operating system is to be polled now; the figures go to
    /// `ResourceMonitor::store_sample`.
    pub poll: bool,
    /// The instances to look at after that, in order: each is checked for
    /// liveness with `check_instance`, and the answer goes to
    /// `refresh_instance_usage`.
    pub targets: Vec<InstanceId>,
}

impl AppState {
    /// Begins a resource update at the time `now`, a reading of a monotonic
    /// clock in milliseconds: asks the monitor for a refresh, which polls at
    /// most once per update interval, and lists the instances with a known
    /// process id.
    pub fn update_resources(&mut self, now: u64) -> (r: ResourceUpdate)
        ensures
            r.poll == old(self).resource_monitor.throttle.is_due(now),
            r.targets@ == selected(old(self).instances@, Selection::WithProcess).map_values(
                |i: Instance| i.id,
            ),
            final(self).resource_monitor.throttle == old(self).resource_monitor.throttle.refreshed(
                now,
            ),
            final(self).resource_monitor.sample == old(self).resource_monitor.sample,
            final(self).resource_monitor.sampled_at_ms == old(self).resource_monitor.sampled_at_ms,
            final(self).resource_monitor.last_network == old(self).resource_monitor.last_network,
            *final(self) == (AppState {
                resource_monitor: final(self).resource_monitor,
                ..*old(self)
            }),
            old(self).wf() ==> final(self).wf(),
    {
        let poll = self.resource_monitor.refresh(now);
        let targets = self.select_ids(Selection::WithProcess);
        ResourceUpdate { poll, targets }
    }
}

/// A staggered launch of `n` configurations takes `2n - 1` steps: the
/// creations stand at the even positions, in the order of the list, and a
/// delay of the configured length stands between every two of them.
pub proof fn lemma_staggered_launch_steps(configs: Seq<InstanceConfigView>, delay_ms: u64)
    ensures
        launch_steps_of(configs, true, delay_ms).len() == if configs.len() == 0 {
            0
        } else {
            2 * configs.len() - 1
        },
        forall|i: int|
            0 <= i < configs.len() ==> launch_steps_of(configs, true, delay_ms)[2 * i]
                == ProfileStepView::Create(#[trigger] configs[i]),
        forall|i: int|
            #![trigger launch_steps_of(configs, true, delay_ms)[2 * i + 1]]
            0 <= i < configs.len() - 1 ==> launch_steps_of(configs, true, delay_ms)[2 * i + 1]
                == ProfileStepView::Delay(delay_ms),
    decreases configs.len(),
{
    if configs.len() > 0 {
        let rest = configs.drop_last();
        lemma_staggered_launch_steps(rest, delay_ms);
        let steps = launch_steps_of(configs, true, delay_ms);
        let before = launch_steps_of(rest, true, delay_ms);
        assert forall|i: int| 0 <= i < configs.len() implies steps[2 * i]
            == ProfileStepView::Create(#[trigger] configs[i]) by {
            if i < rest.len() {
                assert(rest[i] == configs[i]);
                assert(steps[2 * i] == before[2 * i]);
            }
        }
        assert forall|i: int|
            #![trigger steps[2 * i + 1]]
            0 <= i < configs.len() - 1 implies steps[2 * i + 1] == ProfileStepView::Delay(
            delay_ms,
        ) by {
            if i < rest.len() - 1 {
                assert(steps[2 * i + 1] == before[2 * i + 1]);
            }
        }
    }
}

/// A launch that is not staggered takes one step for each configuration: its
/// creation, in the order of the list, and no delay.
pub proof fn lemma_plain_launch_steps(configs: Seq<InstanceConfigView>, delay_ms: u64)
    ensures
        launch_steps_of(configs, false, delay_ms) == configs.map_values(
            |c: InstanceConfigView| ProfileStepView::Create(c),
        ),
    decreases configs.len(),
{
    if configs.len() > 0 {
        lemma_plain_launch_steps(configs.drop_last(), delay_ms);
    }
    assert(launch_steps_of(configs, false, delay_ms) =~= configs.map_values(
        |c: InstanceConfigView| ProfileStepView::Create(c),
    ));
}

/// One crash of an instance that is configured to restart gives one
/// respawn: the instance waits for a respawn with the delay of its
/// configuration, the respawn is counted once, and once the launch has
/// given a process the instance no longer waits for a respawn.
pub proof fn lemma_crash_gives_one_restart(
    instance: InstanceView,
    error: Option<Seq<char>>,
    crashed_at: Timestamp,
    pid: u32,
    started_at: Timestamp,
)
    requires
        instance.config.auto_restart,
        instance.restart_count < u32::MAX,
    ensures
        instance.crashed(error, crashed_at).should_auto_restart(),
        Selection::AwaitingRestart.holds(instance.crashed(error, crashed_at)),
        next_restart_count(instance.restart_count) == instance.restart_count + 1,
        !(InstanceView {
            restart_count: next_restart_count(instance.restart_count),
            ..instance.crashed(error, crashed_at)
        }).started(pid, started_at).should_auto_restart(),
        (InstanceView {
            restart_count: next_restart_count(instance.restart_count),
            ..instance.crashed(error, crashed_at)
        }).started(pid, started_at).restart_count == instance.restart_count + 1,
{
}


} // verus!
