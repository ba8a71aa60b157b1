//! The uniform process-control interface and its translation to the
//! primitives of each operating system.
//!
//! Every operation is described as a `PlatformRequest`, which the caller
//! carries out; the functions here decide which primitive an operation needs
//! on a given system and what its outcome means.

use vstd::prelude::*;
use crate::resource::{
    ABOVE_NORMAL_PRIORITY_CLASS, BELOW_NORMAL_PRIORITY_CLASS, HIGH_PRIORITY_CLASS,
    IDLE_PRIORITY_CLASS, MB, NORMAL_PRIORITY_CLASS,
};

verus! {

/// The operating systems that have a backend, and the rest.
#[derive(Debug, Clone, Copy, PartialEq, Eq, Structural)]
pub enum OsFamily {
    /// Processes are controlled through handles, threads and job objects.
    Windows,
    /// Processes are controlled through signals and niceness.
    MacOs,
    /// No backend.
    Other,
}

/// The uniform operations.
#[derive(Debug, Clone, Copy, PartialEq, Eq, Structural)]
pub enum PlatformOp {
    Terminate,
    Kill,
    Suspend,
    Resume,
    IsRunning,
    SetCpuAffinity,
    SetPriority,
    SetMemoryLimit,
}

/// Why an operation did not take effect.
#[derive(Debug, Clone, Copy, PartialEq, Eq, Structural)]
pub enum PlatformError {
    /// The target process could not be opened.
    OpenFailed,
    /// The system call failed with this error code.
    OperationFailed(i32),
    /// The operation does not exist on this system.
    Unsupported(PlatformOp, OsFamily),
}

/// The process-control signals that the signal backend sends.
#[derive(Debug, Clone, Copy, PartialEq, Eq, Structural)]
pub enum Signal {
    /// Asks the process to end.
    Terminate,
    /// Ends the process at once.
    Kill,
    /// Suspends the process.
    Stop,
    /// Resumes a suspended process.
    Continue,
    /// Sends nothing; only checks that the process exists.
    Probe,
}

/// One primitive for the caller to carry out.
#[derive(Debug, Clone, Copy, PartialEq, Eq, Structural)]
pub enum PlatformRequest {
    /// Nothing to do.
    Nothing,
    /// Send a signal to the process.
    Signal { pid: u32, signal: Signal },
    /// End the process through a handle, with this exit code.
    EndProcess { pid: u32, exit_code: u32 },
    /// Suspend every thread that the process owns.
    SuspendThreads { pid: u32 },
    /// Resume every thread that the process owns.
    ResumeThreads { pid: u32 },
    /// Ask for the exit code of the process.
    QueryExitCode { pid: u32 },
    /// Restrict the process to the cores whose bits are set.
    AffinityMask { pid: u32, mask: u64 },
    /// Put the process into a priority class.
    PriorityClass { pid: u32, class: u32 },
    /// Set the niceness of the process.
    Niceness { pid: u32, value: i32 },
    /// Assign the process to a new job object that caps its memory.
    JobMemoryLimit { pid: u32, bytes: u64 },
}

/// Exit code with which a graceful termination ends a process.
pub const GRACEFUL_EXIT_CODE: u32 = 0;

/// Exit code with which a forced termination ends a process.
pub const FORCED_EXIT_CODE: u32 = 1;

/// Exit code that the system reports for a process that has not exited.
pub const STILL_ACTIVE: u32 = 259;

/// Largest process id that a signal can address.
pub const MAX_SIGNAL_PID: u32 = 0x7fff_ffff;

/// Whether a signal or a niceness can address the process `pid` alone: the
/// id zero and the ids above the largest signed 32-bit number stand for
/// groups of processes or for the caller itself.
pub open spec fn is_signal_target(pid: u32) -> bool {
    0 < pid && pid <= MAX_SIGNAL_PID
}

/// Whether a signal or a niceness can address the process `pid` alone.
pub fn addresses_one_process(pid: u32) -> (r: bool)
    ensures
        r == is_signal_target(pid),
{
    0 < pid && pid <= MAX_SIGNAL_PID
}

/// The signal that carries out `op`.
pub open spec fn signal_of(op: PlatformOp) -> Signal {
    match op {
        PlatformOp::Terminate => Signal::Terminate,
        PlatformOp::Kill => Signal::Kill,
        PlatformOp::Suspend => Signal::Stop,
        PlatformOp::Resume => Signal::Continue,
        _ => Signal::Probe,
    }
}

/// The primitive that carries out `op` on the process `pid` by a signal or
/// through the process itself, for the operations that take no further
/// argument. The signal backend refuses a process id that a signal cannot
/// address alone: such a process cannot be opened.
pub open spec fn control_request(family: OsFamily, op: PlatformOp, pid: u32) -> Result<
    PlatformRequest,
    PlatformError,
> {
    match family {
        OsFamily::Windows => match op {
            PlatformOp::Terminate => Ok(
                PlatformRequest::EndProcess { pid, exit_code: GRACEFUL_EXIT_CODE },
            ),
            PlatformOp::Kill => Ok(PlatformRequest::EndProcess { pid, exit_code: FORCED_EXIT_CODE }),
            PlatformOp::Suspend => Ok(PlatformRequest::SuspendThreads { pid }),
            PlatformOp::Resume => Ok(PlatformRequest::ResumeThreads { pid }),
            PlatformOp::IsRunning => Ok(PlatformRequest::QueryExitCode { pid }),
            _ => Err(PlatformError::Unsupported(op, family)),
        },
        OsFamily::MacOs => match op {
            PlatformOp::Terminate | PlatformOp::Kill | PlatformOp::Suspend | PlatformOp::Resume
            | PlatformOp::IsRunning => if is_signal_target(pid) {
                Ok(PlatformRequest::Signal { pid, signal: signal_of(op) })
            } else {
                Err(PlatformError::OpenFailed)
            },
            _ => Err(PlatformError::Unsupported(op, family)),
        },
        OsFamily::Other => Err(PlatformError::Unsupported(op, family)),
    }
}

/// The primitive that asks the process to end.
pub fn terminate_process(family: OsFamily, pid: u32) -> (r: Result<PlatformRequest, PlatformError>)
    ensures
        r == control_request(family, PlatformOp::Terminate, pid),
{
    match family {
        OsFamily::Windows => Ok(PlatformRequest::EndProcess { pid, exit_code: GRACEFUL_EXIT_CODE }),
        OsFamily::MacOs => if addresses_one_process(pid) {
            Ok(PlatformRequest::Signal { pid, signal: Signal::Terminate })
        } else {
            Err(PlatformError::OpenFailed)
        },
        OsFamily::Other => Err(PlatformError::Unsupported(PlatformOp::Terminate, family)),
    }
}

/// The primitive that ends the process at once.
pub fn kill_process(family: OsFamily, pid: u32) -> (r: Result<PlatformRequest, PlatformError>)
    ensures
        r == control_request(family, PlatformOp::Kill, pid),
{
    match family {
        OsFamily::Windows => Ok(PlatformRequest::EndProcess { pid, exit_code: FORCED_EXIT_CODE }),
        OsFamily::MacOs => if addresses_one_process(pid) {
            Ok(PlatformRequest::Signal { pid, signal: Signal::Kill })
        } else {
            Err(PlatformError::OpenFailed)
        },
        OsFamily::Other => Err(PlatformError::Unsupported(PlatformOp::Kill, family)),
    }
}

/// The primitive that suspends the process: a stop signal, or, where no
/// whole-process suspension exists, the suspension of each of its threads.
pub fn suspend_process(family: OsFamily, pid: u32) -> (r: Result<PlatformRequest, PlatformError>)
    ensures
        r == control_request(family, PlatformOp::Suspend, pid),
{
    match family {
        OsFamily::Windows => Ok(PlatformRequest::SuspendThreads { pid }),
        OsFamily::MacOs => if addresses_one_process(pid) {
            Ok(PlatformRequest::Signal { pid, signal: Signal::Stop })
        } else {
            Err(PlatformError::OpenFailed)
        },
        OsFamily::Other => Err(PlatformError::Unsupported(PlatformOp::Suspend, family)),
    }
}

/// The primitive that resumes the process.
pub fn resume_process(family: OsFamily, pid: u32) -> (r: Result<PlatformRequest, PlatformError>)
    ensures
        r == control_request(family, PlatformOp::Resume, pid),
{
    match family {
        OsFamily::Windows => Ok(PlatformRequest::ResumeThreads { pid }),
        OsFamily::MacOs => if addresses_one_process(pid) {
            Ok(PlatformRequest::Signal { pid, signal: Signal::Continue })
        } else {
            Err(PlatformError::OpenFailed)
        },
        OsFamily::Other => Err(PlatformError::Unsupported(PlatformOp::Resume, family)),
    }
}

/// The primitive that probes whether the process exists; nothing where no
/// backend can tell and where no signal can address the process.
pub fn is_process_running(family: OsFamily, pid: u32) -> (r: PlatformRequest)
    ensures
        r == match control_request(family, PlatformOp::IsRunning, pid) {
            Ok(request) => request,
            Err(_) => PlatformRequest::Nothing,
        },
{
    match family {
        OsFamily::Windows => PlatformRequest::QueryExitCode { pid },
        OsFamily::MacOs => if addresses_one_process(pid) {
            PlatformRequest::Signal { pid, signal: Signal::Probe }
        } else {
            PlatformRequest::Nothing
        },
        OsFamily::Other => PlatformRequest::Nothing,
    }
}

/// What a liveness probe's answer means. The answer carries the exit code
/// where the probe asked for one. A probe never fails: any failure means
/// "not running".
pub open spec fn probe_says_running(family: OsFamily, answer: Result<u32, PlatformError>) -> bool {
    match family {
        OsFamily::Windows => answer == Ok::<u32, PlatformError>(STILL_ACTIVE),
        OsFamily::MacOs => answer is Ok,
        OsFamily::Other => false,
    }
}

/// Reads the answer of a liveness probe.
pub fn running_from_probe(family: OsFamily, answer: &Result<u32, PlatformError>) -> (r: bool)
    ensures
        r == probe_says_running(family, *answer),
{
    match family {
        OsFamily::Windows => match answer {
            Ok(code) => *code == STILL_ACTIVE,
            Err(_) => false,
        },
        OsFamily::MacOs => answer.is_ok(),
        OsFamily::Other => false,
    }
}

/// Number of cores that an affinity mask can name.
pub const MASK_BITS: usize = 64;

/// The mask bit of one core; no bit for a core that the mask cannot name.
pub open spec fn core_bit(core: usize) -> u64 {
    if core < MASK_BITS {
        1u64 << (core as u64)
    } else {
        0
    }
}

/// The affinity mask of a list of cores: the bits of all of them.
pub open spec fn affinity_mask_of(cores: Seq<usize>) -> u64
    decreases cores.len(),
{
    if cores.len() == 0 {
        0
    } else {
        affinity_mask_of(cores.drop_last()) | core_bit(cores.last())
    }
}

/// Whether bit `i` of `mask` is set.
pub open spec fn bit_is_set(mask: u64, i: u64) -> bool {
    (mask >> i) & 1 == 1
}

/// A bit of an affinity mask is set exactly when its core is in the list.
pub proof fn lemma_affinity_mask_bits(cores: Seq<usize>, i: u64)
    requires
        i < 64,
    ensures
        bit_is_set(affinity_mask_of(cores), i) <==> cores.contains(i as usize),
    decreases cores.len(),
{
    if cores.len() == 0 {
        assert(!bit_is_set(0, i)) by (bit_vector);
    } else {
        let rest = cores.drop_last();
        let last = cores.last();
        lemma_affinity_mask_bits(rest, i);
        let m = affinity_mask_of(rest);
        let b = core_bit(last);
        if last < MASK_BITS {
            let c = last as u64;
            assert(bit_is_set(m | (1u64 << c), i) <==> (bit_is_set(m, i) || c == i)) by (bit_vector)
                requires
                    c < 64,
                    i < 64,
            ;
        } else {
            assert(m | 0 == m) by (bit_vector);
        }
        assert(cores.contains(i as usize) <==> (rest.contains(i as usize) || last == i as usize)) by {
            if rest.contains(i as usize) {
                let k = choose|k: int| 0 <= k < rest.len() && rest[k] == i as usize;
                assert(cores[k] == i as usize);
            }
            if last == i as usize {
                assert(cores[cores.len() - 1] == i as usize);
            }
            if cores.contains(i as usize) {
                let k = choose|k: int| 0 <= k < cores.len() && cores[k] == i as usize;
                if k < rest.len() {
                    assert(rest[k] == i as usize);
                }
            }
        }
    }
}

/// Computes the affinity mask of a list of cores.
pub fn affinity_mask(cores: &Vec<usize>) -> (mask: u64)
    ensures
        mask == affinity_mask_of(cores@),
{
    let mut mask: u64 = 0;
    let mut i: usize = 0;
    while i < cores.len()
        invariant
            i <= cores.len(),
            mask == affinity_mask_of(cores@.take(i as int)),
        decreases cores.len() - i,
    {
        let core = cores[i];
        proof {
            assert(cores@.take(i + 1).drop_last() =~= cores@.take(i as int));
            assert(cores@.take(i + 1).last() == core);
        }
        if core < MASK_BITS {
            mask = mask | (1u64 << (core as u64));
        } else {
            assert(mask | 0 == mask) by (bit_vector);
        }
        i += 1;
    }
    proof {
        assert(cores@.take(cores.len() as int) =~= cores@);
    }
    mask
}

/// The primitive that pins the process to `cores`. An empty list asks for
/// nothing. The signal backend has no affinity control: the wish is dropped
/// there, and that is no error.
pub fn set_cpu_affinity(family: OsFamily, pid: u32, cores: &Vec<usize>) -> (r: Result<
    PlatformRequest,
    PlatformError,
>)
    ensures
        r == if cores@.len() == 0 {
            Ok::<PlatformRequest, PlatformError>(PlatformRequest::Nothing)
        } else {
            match family {
                OsFamily::Windows => Ok(
                    PlatformRequest::AffinityMask { pid, mask: affinity_mask_of(cores@) },
                ),
                OsFamily::MacOs => Ok(PlatformRequest::Nothing),
                OsFamily::Other => Err(
                    PlatformError::Unsupported(PlatformOp::SetCpuAffinity, OsFamily::Other),
                ),
            }
        },
{
    if cores.len() == 0 {
        return Ok(PlatformRequest::Nothing);
    }
    match family {
        OsFamily::Windows => Ok(PlatformRequest::AffinityMask { pid, mask: affinity_mask(cores) }),
        OsFamily::MacOs => Ok(PlatformRequest::Nothing),
        OsFamily::Other => Err(PlatformError::Unsupported(PlatformOp::SetCpuAffinity, family)),
    }
}

/// The priority class that the handle backend gives a process for a level:
/// below zero the process yields to others, above zero it is favoured, and
/// anything beyond one step either way is the extreme class of that side.
pub open spec fn launch_priority_class(level: int) -> u32 {
    if level <= -2 {
        IDLE_PRIORITY_CLASS
    } else if level == -1 {
        BELOW_NORMAL_PRIORITY_CLASS
    } else if level == 0 {
        NORMAL_PRIORITY_CLASS
    } else if level == 1 {
        ABOVE_NORMAL_PRIORITY_CLASS
    } else {
        HIGH_PRIORITY_CLASS
    }
}

/// The primitive that sets the priority of the process: a priority class on
/// the handle backend (nothing for level 0), the niceness of the same number
/// on the signal backend, which refuses a process id that it cannot address
/// alone.
pub fn set_process_priority(family: OsFamily, pid: u32, priority: i8) -> (r: Result<
    PlatformRequest,
    PlatformError,
>)
    ensures
        r == match family {
            OsFamily::Windows => if priority == 0 {
                Ok::<PlatformRequest, PlatformError>(PlatformRequest::Nothing)
            } else {
                Ok(
                    PlatformRequest::PriorityClass {
                        pid,
                        class: launch_priority_class(priority as int),
                    },
                )
            },
            OsFamily::MacOs => if is_signal_target(pid) {
                Ok(PlatformRequest::Niceness { pid, value: priority as i32 })
            } else {
                Err(PlatformError::OpenFailed)
            },
            OsFamily::Other => Err(
                PlatformError::Unsupported(PlatformOp::SetPriority, OsFamily::Other),
            ),
        },
{
    match family {
        OsFamily::Windows => {
            if priority == 0 {
                Ok(PlatformRequest::Nothing)
            } else {
                let class = if priority <= -2 {
                    IDLE_PRIORITY_CLASS
                } else if priority == -1 {
                    BELOW_NORMAL_PRIORITY_CLASS
                } else if priority == 1 {
                    ABOVE_NORMAL_PRIORITY_CLASS
                } else {
                    HIGH_PRIORITY_CLASS
                };
                Ok(PlatformRequest::PriorityClass { pid, class })
            }
        },
        OsFamily::MacOs => if addresses_one_process(pid) {
            Ok(PlatformRequest::Niceness { pid, value: priority as i32 })
        } else {
            Err(PlatformError::OpenFailed)
        },
        OsFamily::Other => Err(PlatformError::Unsupported(PlatformOp::SetPriority, family)),
    }
}

/// A number of megabytes in bytes, held at the largest 64-bit number where
/// the product would pass it.
pub open spec fn megabytes_in_bytes(mb: u64) -> u64 {
    if mb * MB > u64::MAX {
        u64::MAX
    } else {
        (mb * MB) as u64
    }
}

/// The primitive that caps the memory of the process. Only the handle
/// backend can cap a process that already runs; elsewhere, and for a cap of
/// zero, nothing is asked.
pub fn set_memory_limit(family: OsFamily, pid: u32, memory_mb: u64) -> (r: PlatformRequest)
    ensures
        r == if family == OsFamily::Windows && memory_mb > 0 {
            PlatformRequest::JobMemoryLimit { pid, bytes: megabytes_in_bytes(memory_mb) }
        } else {
            PlatformRequest::Nothing
        },
{
    match family {
        OsFamily::Windows => {
            if memory_mb == 0 {
                PlatformRequest::Nothing
            } else {
                let bytes = if memory_mb > u64::MAX / MB {
                    u64::MAX
                } else {
                    memory_mb * MB
                };
                PlatformRequest::JobMemoryLimit { pid, bytes }
            }
        },
        _ => PlatformRequest::Nothing,
    }
}

/// Whether a failure of `op` is swallowed on `family`: the handle backend
/// never lets a priority or memory cap fail a launch, and the signal backend
/// takes a priority failure with error code 0 as success.
pub open spec fn is_swallowed(family: OsFamily, op: PlatformOp, error: PlatformError) -> bool {
    match family {
        OsFamily::Windows => op == PlatformOp::SetPriority || op == PlatformOp::SetMemoryLimit,
        OsFamily::MacOs => op == PlatformOp::SetPriority && error == PlatformError::OperationFailed(
            0,
        ),
        OsFamily::Other => false,
    }
}

/// The result of the uniform operation `op`, given how its primitive went.
pub fn settle(family: OsFamily, op: PlatformOp, outcome: Result<(), PlatformError>) -> (r: Result<
    (),
    PlatformError,
>)
    ensures
        r == match outcome {
            Ok(()) => Ok::<(), PlatformError>(()),
            Err(error) => if is_swallowed(family, op, error) {
                Ok(())
            } else {
                Err(error)
            },
        },
{
    match outcome {
        Ok(()) => Ok(()),
        Err(error) => {
            let swallowed = match family {
                OsFamily::Windows => op == PlatformOp::SetPriority || op
                    == PlatformOp::SetMemoryLimit,
                OsFamily::MacOs => op == PlatformOp::SetPriority && error
                    == PlatformError::OperationFailed(0),
                OsFamily::Other => false,
            };
            if swallowed {
                Ok(())
            } else {
                Err(error)
            }
        },
    }
}


/// One entry of a system-wide thread listing.
#[derive(Debug, Clone, Copy, PartialEq, Eq, Structural)]
pub struct ThreadEntry {
    /// The thread.
    pub thread_id: u32,
    /// The process that owns it.
    pub owner_pid: u32,
}

/// The threads of a listing that the process `pid` owns, in listing order.
pub open spec fn threads_owned_by(listing: Seq<ThreadEntry>, pid: u32) -> Seq<u32> {
    listing.filter(|e: ThreadEntry| e.owner_pid == pid).map_values(|e: ThreadEntry| e.thread_id)
}

/// Picks from a system-wide thread listing the threads to suspend or resume
/// for the process `pid`: every thread that it owns, and no other.
pub fn threads_of_process(listing: &Vec<ThreadEntry>, pid: u32) -> (r: Vec<u32>)
    ensures
        r@ == threads_owned_by(listing@, pid),
{
    let mut r: Vec<u32> = Vec::new();
    let mut i: usize = 0;
    while i < listing.len()
        invariant
            i <= listing.len(),
            r@ == threads_owned_by(listing@.take(i as int), pid),
        decreases listing.len() - i,
    {
        proof {
            let pred = |e: ThreadEntry| e.owner_pid == pid;
            assert(listing@.take(i + 1).drop_last() =~= listing@.take(i as int));
            reveal(Seq::filter);
            assert(listing@.take(i + 1).filter(pred) == if pred(listing@[i as int]) {
                listing@.take(i as int).filter(pred).push(listing@[i as int])
            } else {
                listing@.take(i as int).filter(pred)
            });
        }
        if listing[i].owner_pid == pid {
            r.push(listing[i].thread_id);
        }
        proof {
            assert(r@ =~= threads_owned_by(listing@.take(i + 1), pid));
        }
        i += 1;
    }
    proof {
        assert(listing@.take(listing.len() as int) =~= listing@);
    }
    r
}

/// Extended window style bit of a tool window, which the taskbar leaves out.
pub const WS_EX_TOOLWINDOW: u64 = 0x80;

/// Extended window style bit that forces a window onto the taskbar.
pub const WS_EX_APPWINDOW: u64 = 0x40000;

/// The extended style that keeps a window off the taskbar: the tool-window
/// bit set, the app-window bit cleared, every other bit as it was.
pub open spec fn hidden_style_of(style: u64) -> u64 {
    (style | WS_EX_TOOLWINDOW) & !WS_EX_APPWINDOW
}

/// The new extended style for a window that is to leave the taskbar, or
/// nothing if its style already keeps it off.
pub fn taskbar_hidden_style(style: u64) -> (r: Option<u64>)
    ensures
        r == if hidden_style_of(style) == style {
            None::<u64>
        } else {
            Some(hidden_style_of(style))
        },
{
    let hidden = (style | WS_EX_TOOLWINDOW) & !WS_EX_APPWINDOW;
    if hidden == style {
        None
    } else {
        Some(hidden)
    }
}

/// A style made by `hidden_style_of` has the tool-window bit, lacks the
/// app-window bit, and is not changed by hiding once more.
pub proof fn lemma_hidden_style(style: u64)
    ensures
        hidden_style_of(style) & WS_EX_TOOLWINDOW == WS_EX_TOOLWINDOW,
        hidden_style_of(style) & WS_EX_APPWINDOW == 0,
        hidden_style_of(hidden_style_of(style)) == hidden_style_of(style),
{
    assert(((style | 0x80) & !0x40000u64) & 0x80 == 0x80) by (bit_vector);
    assert(((style | 0x80) & !0x40000u64) & 0x40000 == 0) by (bit_vector);
    assert(((((style | 0x80) & !0x40000u64) | 0x80) & !0x40000u64) == ((style | 0x80)
        & !0x40000u64)) by (bit_vector);
}

/// One top-level window of a system-wide window listing.
#[derive(Debug, Clone, Copy, PartialEq, Eq, Structural)]
pub struct WindowEntry {
    /// The window.
    pub handle: u64,
    /// The process that owns it.
    pub owner_pid: u32,
    /// Whether the window is visible.
    pub visible: bool,
    /// Its extended window style.
    pub ex_style: u64,
}

/// A window whose extended style is to be changed.
#[derive(Debug, Clone, Copy, PartialEq, Eq, Structural)]
pub struct StyleChange {
    /// The window.
    pub handle: u64,
    /// The extended style to give it.
    pub ex_style: u64,
}

/// Whether a window is to leave the taskbar for the process `pid`: the
/// process owns it, it is visible, and its style does not keep it off the
/// taskbar yet.
pub open spec fn needs_hiding(window: WindowEntry, pid: u32) -> bool {
    window.owner_pid == pid && window.visible && hidden_style_of(window.ex_style)
        != window.ex_style
}

/// The style changes that take the windows of the process `pid` off the
/// taskbar, in listing order.
pub open spec fn style_changes_of(listing: Seq<WindowEntry>, pid: u32) -> Seq<StyleChange>
    decreases listing.len(),
{
    if listing.len() == 0 {
        Seq::empty()
    } else if needs_hiding(listing.last(), pid) {
        style_changes_of(listing.drop_last(), pid).push(
            StyleChange {
                handle: listing.last().handle,
                ex_style: hidden_style_of(listing.last().ex_style),
            },
        )
    } else {
        style_changes_of(listing.drop_last(), pid)
    }
}

/// Picks from a system-wide window listing the windows to take off the
/// taskbar for the process `pid`, each with its new extended style.
pub fn windows_to_hide(listing: &Vec<WindowEntry>, pid: u32) -> (r: Vec<StyleChange>)
    ensures
        r@ == style_changes_of(listing@, pid),
{
    let mut r: Vec<StyleChange> = Vec::new();
    let mut i: usize = 0;
    assert(listing@.take(0) =~= Seq::<WindowEntry>::empty());
    while i < listing.len()
        invariant
            i <= listing.len(),
            r@ == style_changes_of(listing@.take(i as int), pid),
        decreases listing.len() - i,
    {
        proof {
            assert(listing@.take(i + 1).drop_last() =~= listing@.take(i as int));
            assert(listing@.take(i + 1).last() == listing[i as int]);
        }
        let window = listing[i];
        if window.owner_pid == pid && window.visible {
            match taskbar_hidden_style(window.ex_style) {
                Some(ex_style) => {
                    r.push(StyleChange { handle: window.handle, ex_style });
                },
                None => {},
            }
        }
        i += 1;
    }
    proof {
        assert(listing@.take(listing.len() as int) =~= listing@);
    }
    r
}

/// Distance between two consecutive handle values of a process.
pub const HANDLE_STEP: usize = 4;

/// A bounded walk over the low handle values of a process, made to close the
/// handles that look like single-instance locks. The walk tries the handle
/// values 4, 8, 12, ... up to `last`, and ends early once `max_closed`
/// handles were closed. It cannot tell what a handle is for: it is a
/// heuristic, bounded in range and in count.
#[derive(Debug, Clone, Copy, PartialEq, Eq, Structural)]
pub struct HandleSweep {
    /// The handle value to try next.
    pub next: usize,
    /// The largest handle value to try.
    pub last: usize,
    /// How many handles were closed so far.
    pub closed: u32,
    /// How many handles may be closed at most.
    pub max_closed: u32,
}

impl HandleSweep {
    /// The invariant of a walk: it stands on a handle value, and has closed
    /// no more than it may.
    pub open spec fn wf(&self) -> bool {
        &&& self.next >= HANDLE_STEP
        &&& self.next % HANDLE_STEP == 0
        &&& self.last <= usize::MAX - HANDLE_STEP
        &&& self.closed <= self.max_closed
    }

    /// Whether the walk is over.
    pub open spec fn is_done(&self) -> bool {
        self.closed >= self.max_closed || self.next > self.last
    }

    /// How many handle values the walk may still try.
    pub open spec fn remaining(&self) -> nat {
        if self.next > self.last {
            0
        } else {
            ((self.last - self.next) / HANDLE_STEP as int + 1) as nat
        }
    }

    /// A walk from the first handle value up to `last` that closes at most
    /// `max_closed` handles.
    pub fn new(last: usize, max_closed: u32) -> (r: Self)
        requires
            last <= usize::MAX - HANDLE_STEP,
        ensures
            r == (HandleSweep { next: HANDLE_STEP, last, closed: 0, max_closed }),
            r.wf(),
    {
        HandleSweep { next: HANDLE_STEP, last, closed: 0, max_closed }
    }

    /// The handle value to try now, or nothing when the walk is over.
    pub fn next_handle(&self) -> (r: Option<usize>)
        ensures
            r == if self.is_done() {
                None::<usize>
            } else {
                Some(self.next)
            },
    {
        if self.closed >= self.max_closed || self.next > self.last {
            None
        } else {
            Some(self.next)
        }
    }

    /// Takes note of what became of the handle that was tried, and moves on
    /// to the next handle value.
    pub fn record(&mut self, closed: bool)
        requires
            old(self).wf(),
            !old(self).is_done(),
        ensures
            final(self).wf(),
            final(self).next == old(self).next + HANDLE_STEP,
            final(self).last == old(self).last,
            final(self).max_closed == old(self).max_closed,
            final(self).closed == old(self).closed + if closed {
                1int
            } else {
                0int
            },
            final(self).remaining() == old(self).remaining() - 1,
    {
        if closed {
            self.closed = self.closed + 1;
        }
        self.next = self.next + HANDLE_STEP;
    }
}

/// The kinds of best-effort work that follow a launch in the background.
#[derive(Debug, Clone, Copy, PartialEq, Eq, Structural)]
pub enum BackgroundKind {
    /// Close the handles that look like single-instance locks.
    CloseSingletonHandles,
    /// Hide the windows of the process from the taskbar.
    HideFromTaskbar,
}

/// Best-effort work for a detached worker: wait for the target to settle,
/// then act. Its outcome is only logged, and it cannot be cancelled.
#[derive(Debug, Clone, Copy, PartialEq, Eq, Structural)]
pub struct BackgroundTask {
    /// What to do.
    pub kind: BackgroundKind,
    /// The target process.
    pub pid: u32,
    /// How long to wait before acting, in milliseconds.
    pub settle_delay_ms: u64,
}

/// Wait before the cautious handle walk, in milliseconds: the target needs
/// time to create its lock objects.
pub const SINGLETON_SETTLE_MS: u64 = 3000;

/// Largest handle value of the cautious handle walk.
pub const SINGLETON_LAST_HANDLE: usize = 0x100;

/// Most handles that the cautious handle walk closes.
pub const SINGLETON_MAX_CLOSED: u32 = 50;

/// Wait before the wide handle walk, in milliseconds.
pub const MUTEX_SETTLE_MS: u64 = 2000;

/// Largest handle value of the wide handle walk.
pub const MUTEX_LAST_HANDLE: usize = 0x400;

/// Most handles that the wide handle walk closes.
pub const MUTEX_MAX_CLOSED: u32 = 100;

/// Wait before windows are hidden, in milliseconds: the target needs time to
/// create them.
pub const TASKBAR_SETTLE_MS: u64 = 1000;

/// The handle walk that bypasses a single-instance guard, or nothing if the
/// target is gone or cannot be opened once the settle delay has passed.
pub fn close_singleton_handles(still_running: bool, opened: bool) -> (r: Option<HandleSweep>)
    ensures
        r == if still_running && opened {
            Some(
                HandleSweep {
                    next: HANDLE_STEP,
                    last: SINGLETON_LAST_HANDLE,
                    closed: 0,
                    max_closed: SINGLETON_MAX_CLOSED,
                },
            )
        } else {
            None::<HandleSweep>
        },
        r is Some ==> r->0.wf(),
{
    if still_running && opened {
        Some(HandleSweep::new(SINGLETON_LAST_HANDLE, SINGLETON_MAX_CLOSED))
    } else {
        None
    }
}

/// The older, wider handle walk, or nothing if the target is gone or cannot
/// be opened once the settle delay has passed.
pub fn close_singleton_mutex(still_running: bool, opened: bool) -> (r: Option<HandleSweep>)
    ensures
        r == if still_running && opened {
            Some(
                HandleSweep {
                    next: HANDLE_STEP,
                    last: MUTEX_LAST_HANDLE,
                    closed: 0,
                    max_closed: MUTEX_MAX_CLOSED,
                },
            )
        } else {
            None::<HandleSweep>
        },
        r is Some ==> r->0.wf(),
{
    if still_running && opened {
        Some(HandleSweep::new(MUTEX_LAST_HANDLE, MUTEX_MAX_CLOSED))
    } else {
        None
    }
}

/// The background work that hides the windows of `pid` from the taskbar.
pub fn hide_process_from_taskbar(pid: u32) -> (r: BackgroundTask)
    ensures
        r == (BackgroundTask {
            kind: BackgroundKind::HideFromTaskbar,
            pid,
            settle_delay_ms: TASKBAR_SETTLE_MS,
        }),
{
    BackgroundTask { kind: BackgroundKind::HideFromTaskbar, pid, settle_delay_ms: TASKBAR_SETTLE_MS }
}


impl PlatformRequest {
    /// The uniform operation that a primitive serves; none for the
    /// primitive that does nothing.
    pub open spec fn operation_of(self) -> Option<PlatformOp> {
        match self {
            PlatformRequest::Nothing => None,
            PlatformRequest::Signal { pid, signal } => Some(
                match signal {
                    Signal::Terminate => PlatformOp::Terminate,
                    Signal::Kill => PlatformOp::Kill,
                    Signal::Stop => PlatformOp::Suspend,
                    Signal::Continue => PlatformOp::Resume,
                    Signal::Probe => PlatformOp::IsRunning,
                },
            ),
            PlatformRequest::EndProcess { pid, exit_code } => Some(
                if exit_code == GRACEFUL_EXIT_CODE {
                    PlatformOp::Terminate
                } else {
                    PlatformOp::Kill
                },
            ),
            PlatformRequest::SuspendThreads { pid } => Some(PlatformOp::Suspend),
            PlatformRequest::ResumeThreads { pid } => Some(PlatformOp::Resume),
            PlatformRequest::QueryExitCode { pid } => Some(PlatformOp::IsRunning),
            PlatformRequest::AffinityMask { pid, mask } => Some(PlatformOp::SetCpuAffinity),
            PlatformRequest::PriorityClass { pid, class } => Some(PlatformOp::SetPriority),
            PlatformRequest::Niceness { pid, value } => Some(PlatformOp::SetPriority),
            PlatformRequest::JobMemoryLimit { pid, bytes } => Some(PlatformOp::SetMemoryLimit),
        }
    }

    /// The uniform operation that the primitive serves; none for the
    /// primitive that does nothing.
    pub fn operation(&self) -> (r: Option<PlatformOp>)
        ensures
            r == self.operation_of(),
    {
        match self {
            PlatformRequest::Nothing => None,
            PlatformRequest::Signal { pid: _, signal } => Some(
                match signal {
                    Signal::Terminate => PlatformOp::Terminate,
                    Signal::Kill => PlatformOp::Kill,
                    Signal::Stop => PlatformOp::Suspend,
                    Signal::Continue => PlatformOp::Resume,
                    Signal::Probe => PlatformOp::IsRunning,
                },
            ),
            PlatformRequest::EndProcess { pid: _, exit_code } => if *exit_code
                == GRACEFUL_EXIT_CODE {
                Some(PlatformOp::Terminate)
            } else {
                Some(PlatformOp::Kill)
            },
            PlatformRequest::SuspendThreads { pid: _ } => Some(PlatformOp::Suspend),
            PlatformRequest::ResumeThreads { pid: _ } => Some(PlatformOp::Resume),
            PlatformRequest::QueryExitCode { pid: _ } => Some(PlatformOp::IsRunning),
            PlatformRequest::AffinityMask { pid: _, mask: _ } => Some(PlatformOp::SetCpuAffinity),
            PlatformRequest::PriorityClass { pid: _, class: _ } => Some(PlatformOp::SetPriority),
            PlatformRequest::Niceness { pid: _, value: _ } => Some(PlatformOp::SetPriority),
            PlatformRequest::JobMemoryLimit { pid: _, bytes: _ } => Some(
                PlatformOp::SetMemoryLimit,
            ),
        }
    }
}

/// Every primitive that `control_request` hands out serves the operation it
/// was asked for.
pub proof fn lemma_request_serves_its_operation(family: OsFamily, op: PlatformOp, pid: u32)
    ensures
        control_request(family, op, pid) is Ok ==> control_request(
            family,
            op,
            pid,
        )->Ok_0.operation_of() == Some(op),
{
}

/// The answer to the request to release the single-instance lock of the
/// application `process_name` by name: nothing is done on any backend;
/// instances are kept apart by their private data directories, and the lock
/// objects of a target are dealt with by the handle walk after its launch.
pub fn release_app_mutex(process_name: &str) -> (r: PlatformRequest)
    ensures
        r == PlatformRequest::Nothing,
{
    PlatformRequest::Nothing
}

/// The answer to the request to redirect the registry for the instance
/// `instance_id`: nothing is done on any backend.
pub fn setup_registry_virtualization(instance_id: &str) -> (r: PlatformRequest)
    ensures
        r == PlatformRequest::Nothing,
{
    PlatformRequest::Nothing
}


} // verus!
