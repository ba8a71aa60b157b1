//! Throttled resource monitoring: when to poll the operating system, and
//! what the polled figures say about the system and about one process.
//!
//! The caller does the polling. It asks `ResourceMonitor::refresh` whether a
//! poll is due, hands the polled figures to `store_sample`, and reads the
//! results from the other methods. Times are readings of a monotonic clock
//! in milliseconds.

use vstd::prelude::*;
use crate::resource::{NetworkInterface, NetworkInterfaceView, ResourceUsage, SystemResources};
use crate::text::{contains_text, has_part, lowercase_of, to_lowercase};

verus! {

/// The counters of one network interface, as polled.
#[derive(Debug)]
pub struct NetworkCounters {
    /// Name of the interface.
    pub name: String,
    /// Bytes received in total.
    pub rx_bytes: u64,
    /// Bytes transmitted in total.
    pub tx_bytes: u64,
}

/// What a `NetworkCounters` holds, as plain values.
pub struct NetworkCountersView {
    pub name: Seq<char>,
    pub rx_bytes: u64,
    pub tx_bytes: u64,
}

impl View for NetworkCounters {
    type V = NetworkCountersView;

    open spec fn view(&self) -> NetworkCountersView {
        NetworkCountersView { name: self.name@, rx_bytes: self.rx_bytes, tx_bytes: self.tx_bytes }
    }
}

impl DeepView for NetworkCounters {
    type V = NetworkCountersView;

    open spec fn deep_view(&self) -> NetworkCountersView {
        self@
    }
}

/// The counters of one network interface as they stood at a known time, kept
/// as the baseline for the next rate.
#[derive(Debug)]
pub struct NetworkReading {
    /// Name of the interface.
    pub name: String,
    /// Bytes received in total.
    pub rx_bytes: u64,
    /// Bytes transmitted in total.
    pub tx_bytes: u64,
    /// When the counters stood so, in milliseconds.
    pub at_ms: u64,
}

/// What a `NetworkReading` holds, as plain values.
pub struct NetworkReadingView {
    pub name: Seq<char>,
    pub rx_bytes: u64,
    pub tx_bytes: u64,
    pub at_ms: u64,
}

impl View for NetworkReading {
    type V = NetworkReadingView;

    open spec fn view(&self) -> NetworkReadingView {
        NetworkReadingView {
            name: self.name@,
            rx_bytes: self.rx_bytes,
            tx_bytes: self.tx_bytes,
            at_ms: self.at_ms,
        }
    }
}

impl DeepView for NetworkReading {
    type V = NetworkReadingView;

    open spec fn deep_view(&self) -> NetworkReadingView {
        self@
    }
}

/// The figures of one process, as polled.
#[derive(Debug, Clone, Copy, PartialEq, Eq, Structural)]
pub struct ProcessSample {
    /// The process.
    pub pid: u32,
    /// CPU share in tenths of a percent.
    pub cpu_permille: u32,
    /// Resident memory in bytes.
    pub memory_bytes: u64,
    /// Virtual memory in bytes.
    pub virtual_memory_bytes: u64,
    /// Bytes read from disk.
    pub disk_read_bytes: u64,
    /// Bytes written to disk.
    pub disk_write_bytes: u64,
}

/// Everything one poll of the operating system yields.
#[derive(Debug)]
pub struct SystemSample {
    /// CPU use over all cores, in tenths of a percent.
    pub cpu_permille: u32,
    /// CPU use of each core, in tenths of a percent.
    pub cpu_per_core: Vec<u32>,
    /// Physical memory in bytes.
    pub total_memory: u64,
    /// Physical memory in use, in bytes.
    pub used_memory: u64,
    /// Physical memory available, in bytes.
    pub available_memory: u64,
    /// Swap space in bytes.
    pub total_swap: u64,
    /// Swap space in use, in bytes.
    pub used_swap: u64,
    /// The network interfaces with their counters.
    pub networks: Vec<NetworkCounters>,
    /// Brand name of the first CPU; empty if there is none.
    pub cpu_name: String,
    /// Time since the system started, in seconds.
    pub uptime_secs: u64,
    /// The processes that exist.
    pub processes: Vec<ProcessSample>,
}

/// The time that passes from `from` to `to` in milliseconds; zero if `to` is
/// the earlier one.
pub open spec fn elapsed_ms(from: u64, to: u64) -> u64 {
    if to >= from {
        (to - from) as u64
    } else {
        0
    }
}

/// When polls happened last and how often they may happen.
#[derive(Debug, Clone, Copy, PartialEq, Eq)]
pub struct Throttle {
    /// When the last poll was made; nothing before the first poll.
    pub last_update_ms: Option<u64>,
    /// The least time between two polls.
    pub update_interval_ms: u64,
    /// How many polls were made; stays at its maximum once there.
    pub polls: u64,
}

impl Throttle {
    /// A throttle that has not polled yet.
    pub open spec fn fresh(update_interval_ms: u64) -> Throttle {
        Throttle { last_update_ms: None, update_interval_ms, polls: 0 }
    }

    /// Whether a poll is due at `now`: none was made yet, or the interval
    /// has passed since the last one.
    pub open spec fn is_due(self, now: u64) -> bool {
        match self.last_update_ms {
            None => true,
            Some(last) => elapsed_ms(last, now) >= self.update_interval_ms,
        }
    }

    /// The throttle after a refresh at `now`: a poll that is due is made and
    /// counted, one that is not due changes nothing.
    pub open spec fn refreshed(self, now: u64) -> Throttle {
        if self.is_due(now) {
            Throttle {
                last_update_ms: Some(now),
                update_interval_ms: self.update_interval_ms,
                polls: if self.polls == u64::MAX {
                    u64::MAX
                } else {
                    (self.polls + 1) as u64
                },
            }
        } else {
            self
        }
    }
}

/// Of two refreshes that lie less than the interval apart, at most one
/// polls: if the first one polls, the second one does not.
pub proof fn lemma_refresh_polls_once(throttle: Throttle, first: u64, second: u64)
    requires
        first <= second,
        second - first < throttle.update_interval_ms,
        throttle.polls < u64::MAX,
    ensures
        throttle.is_due(first) ==> !throttle.refreshed(first).is_due(second),
        throttle.is_due(first) ==> throttle.refreshed(first).refreshed(second).polls
            == throttle.polls + 1,
        throttle.refreshed(first).refreshed(second).polls <= throttle.polls + 1,
{
}

/// The first refresh of a fresh throttle polls, whenever it comes, and a
/// second one less than the interval after it does not: the two together
/// make exactly one poll.
pub proof fn lemma_first_refresh_polls(update_interval_ms: u64, first: u64, second: u64)
    requires
        first <= second,
        second - first < update_interval_ms,
    ensures
        Throttle::fresh(update_interval_ms).is_due(first),
        !Throttle::fresh(update_interval_ms).refreshed(first).is_due(second),
        Throttle::fresh(update_interval_ms).refreshed(first).polls == 1,
        Throttle::fresh(update_interval_ms).refreshed(first).refreshed(second).polls == 1,
{
}

/// The rate in units per second at which a counter went from `previous` to
/// `current` in `elapsed` milliseconds, rounded down. No time passed, or a
/// counter that went backwards, gives zero.
pub open spec fn rate_of(current: u64, previous: u64, elapsed: u64) -> u64 {
    if elapsed == 0 || current < previous {
        0
    } else if (current - previous) * 1000 / (elapsed as int) > u64::MAX {
        u64::MAX
    } else {
        ((current - previous) * 1000 / (elapsed as int)) as u64
    }
}

/// The first reading taken of the interface `name`.
pub open spec fn find_reading(readings: Seq<NetworkReadingView>, name: Seq<char>) -> Option<
    NetworkReadingView,
>
    decreases readings.len(),
{
    if readings.len() == 0 {
        None
    } else if readings[0].name == name {
        Some(readings[0])
    } else {
        find_reading(readings.drop_first(), name)
    }
}

/// An interface with its rates at `now`: the change of each counter since the
/// interface's baseline reading over the time since then, and zero where the
/// interface has no baseline yet.
pub open spec fn interface_of(
    counters: NetworkCountersView,
    baseline: Seq<NetworkReadingView>,
    now: u64,
) -> NetworkInterfaceView {
    match find_reading(baseline, counters.name) {
        Some(reading) => NetworkInterfaceView {
            name: counters.name,
            rx_bytes: counters.rx_bytes,
            tx_bytes: counters.tx_bytes,
            rx_rate: rate_of(counters.rx_bytes, reading.rx_bytes, elapsed_ms(reading.at_ms, now)),
            tx_rate: rate_of(counters.tx_bytes, reading.tx_bytes, elapsed_ms(reading.at_ms, now)),
        },
        None => NetworkInterfaceView {
            name: counters.name,
            rx_bytes: counters.rx_bytes,
            tx_bytes: counters.tx_bytes,
            rx_rate: 0,
            tx_rate: 0,
        },
    }
}

/// The counters of an interface as a baseline taken at `now`.
pub open spec fn reading_of(counters: NetworkCountersView, now: u64) -> NetworkReadingView {
    NetworkReadingView {
        name: counters.name,
        rx_bytes: counters.rx_bytes,
        tx_bytes: counters.tx_bytes,
        at_ms: now,
    }
}

/// The first sample of the process `pid`.
pub open spec fn find_process(processes: Seq<ProcessSample>, pid: u32) -> Option<ProcessSample>
    decreases processes.len(),
{
    if processes.len() == 0 {
        None
    } else if processes[0].pid == pid {
        Some(processes[0])
    } else {
        find_process(processes.drop_first(), pid)
    }
}

/// The usage snapshot that a process sample gives. CPU, memory and disk
/// figures are the sample's. Network traffic is not accounted per process:
/// the figures here are a coarse stand-in, all zero, and no exact
/// per-process measurement.
pub open spec fn usage_of(sample: ProcessSample) -> ResourceUsage {
    ResourceUsage {
        cpu_permille: sample.cpu_permille,
        memory_bytes: sample.memory_bytes,
        virtual_memory_bytes: sample.virtual_memory_bytes,
        network_rx_bytes: 0,
        network_tx_bytes: 0,
        network_rx_rate: 0,
        network_tx_rate: 0,
        disk_read_bytes: sample.disk_read_bytes,
        disk_write_bytes: sample.disk_write_bytes,
        open_files: 0,
        thread_count: 0,
        gpu_permille: 0,
        gpu_memory_bytes: 0,
    }
}

/// Computes `rate_of`.
pub fn transfer_rate(current: u64, previous: u64, elapsed: u64) -> (r: u64)
    ensures
        r == rate_of(current, previous, elapsed),
{
    if elapsed == 0 || current < previous {
        0
    } else {
        let scaled: u128 = ((current - previous) as u128) * 1000 / (elapsed as u128);
        if scaled > u64::MAX as u128 {
            u64::MAX
        } else {
            scaled as u64
        }
    }
}

/// Tracks system-wide and per-process resource use from throttled polls.
#[derive(Debug)]
pub struct ResourceMonitor {
    /// What the last poll yielded.
    pub sample: SystemSample,
    /// When the last poll's figures were stored, in milliseconds; zero
    /// before any were.
    pub sampled_at_ms: u64,
    /// The baseline readings for network rates.
    pub last_network: Vec<NetworkReading>,
    /// When polls happen.
    pub throttle: Throttle,
}

impl ResourceMonitor {
    /// A monitor that polls at most once per `update_interval_ms`. It has
    /// not polled yet: its first refresh is due whenever it comes. Until a
    /// sample is stored the monitor knows an empty system.
    pub fn new(update_interval_ms: u32) -> (r: Self)
        ensures
            r.throttle == Throttle::fresh(update_interval_ms as u64),
            r.sampled_at_ms == 0,
            r.last_network@.len() == 0,
            r.sample.networks@.len() == 0,
            r.sample.processes@.len() == 0,
            r.sample.cpu_per_core@.len() == 0,
    {
        ResourceMonitor {
            sample: SystemSample {
                cpu_permille: 0,
                cpu_per_core: Vec::new(),
                total_memory: 0,
                used_memory: 0,
                available_memory: 0,
                total_swap: 0,
                used_swap: 0,
                networks: Vec::new(),
                cpu_name: String::new(),
                uptime_secs: 0,
                processes: Vec::new(),
            },
            sampled_at_ms: 0,
            last_network: Vec::new(),
            throttle: Throttle {
                last_update_ms: None,
                update_interval_ms: update_interval_ms as u64,
                polls: 0,
            },
        }
    }

    /// Asks for a refresh at `now`. The answer says whether the caller is to
    /// poll the operating system now: it is, and the poll is counted, when
    /// no poll was made yet or the update interval has passed since the last
    /// one. Otherwise the call changes nothing.
    pub fn refresh(&mut self, now: u64) -> (poll: bool)
        ensures
            poll == old(self).throttle.is_due(now),
            final(self).throttle == old(self).throttle.refreshed(now),
            final(self).sample == old(self).sample,
            final(self).sampled_at_ms == old(self).sampled_at_ms,
            final(self).last_network == old(self).last_network,
    {
        let due = match self.throttle.last_update_ms {
            None => true,
            Some(last) => {
                let elapsed = if now >= last {
                    now - last
                } else {
                    0
                };
                elapsed >= self.throttle.update_interval_ms
            },
        };
        if !due {
            return false;
        }
        self.throttle.last_update_ms = Some(now);
        if self.throttle.polls < u64::MAX {
            self.throttle.polls = self.throttle.polls + 1;
        }
        true
    }

    /// Takes the current counters of every interface as the baseline for the
    /// rates to come, stamped with `now`.
    pub fn update_network_rates(&mut self, now: u64)
        ensures
            final(self).last_network.deep_view() == old(self).sample.networks.deep_view().map_values(
                |c: NetworkCountersView| reading_of(c, now),
            ),
            final(self).sample == old(self).sample,
            final(self).sampled_at_ms == old(self).sampled_at_ms,
            final(self).throttle == old(self).throttle,
    {
        let mut readings: Vec<NetworkReading> = Vec::new();
        let mut i: usize = 0;
        while i < self.sample.networks.len()
            invariant
                i <= self.sample.networks.len(),
                readings.len() == i,
                forall|k: int|
                    0 <= k < i ==> readings[k]@ == reading_of(
                        #[trigger] self.sample.networks[k]@,
                        now,
                    ),
            decreases self.sample.networks.len() - i,
        {
            let counters = &self.sample.networks[i];
            readings.push(
                NetworkReading {
                    name: counters.name.clone(),
                    rx_bytes: counters.rx_bytes,
                    tx_bytes: counters.tx_bytes,
                    at_ms: now,
                },
            );
            i += 1;
        }
        assert(readings.deep_view() =~= self.sample.networks.deep_view().map_values(
            |c: NetworkCountersView| reading_of(c, now),
        ));
        self.last_network = readings;
    }

    /// Stores what a poll made at `now` yielded. The counters of the sample
    /// that it replaces become the baseline for network rates, stamped with
    /// the time at which that sample was stored.
    pub fn store_sample(&mut self, sample: SystemSample, now: u64)
        ensures
            final(self).sample == sample,
            final(self).sampled_at_ms == now,
            final(self).last_network.deep_view() == old(self).sample.networks.deep_view().map_values(
                |c: NetworkCountersView| reading_of(c, old(self).sampled_at_ms),
            ),
            final(self).throttle == old(self).throttle,
    {
        let taken = self.sampled_at_ms;
        self.update_network_rates(taken);
        self.sample = sample;
        self.sampled_at_ms = now;
    }

    /// Looks up the baseline reading of the interface `name`.
    fn baseline_of(&self, name: &String) -> (r: Option<usize>)
        ensures
            match r {
                Some(i) => i < self.last_network@.len() && find_reading(
                    self.last_network.deep_view(),
                    name@,
                ) == Some(self.last_network[i as int]@),
                None => find_reading(self.last_network.deep_view(), name@) is None,
            },
    {
        let ghost all = self.last_network.deep_view();
        let mut i: usize = 0;
        assert(all.skip(0) =~= all);
        while i < self.last_network.len()
            invariant
                i <= self.last_network.len(),
                all == self.last_network.deep_view(),
                find_reading(all, name@) == find_reading(all.skip(i as int), name@),
            decreases self.last_network.len() - i,
        {
            proof {
                assert(all.skip(i as int)[0] == self.last_network[i as int]@);
                assert(all.skip(i as int).drop_first() =~= all.skip(i + 1));
            }
            if self.last_network[i].name == *name {
                return Some(i);
            }
            i += 1;
        }
        proof {
            assert(all.skip(i as int).len() == 0);
        }
        None
    }

    /// The system-wide figures of the last poll, with the network rates as
    /// of `now`: for each interface the change of its counters since its
    /// baseline reading over the time since then, and zero for an interface
    /// that has no baseline yet.
    pub fn get_system_resources(&self, now: u64) -> (r: SystemResources)
        ensures
            r.cpu_permille == self.sample.cpu_permille,
            r.cpu_per_core@ == self.sample.cpu_per_core@,
            r.total_memory == self.sample.total_memory,
            r.used_memory == self.sample.used_memory,
            r.available_memory == self.sample.available_memory,
            r.total_swap == self.sample.total_swap,
            r.used_swap == self.sample.used_swap,
            r.network_interfaces.deep_view() == self.sample.networks.deep_view().map_values(
                |c: NetworkCountersView| interface_of(c, self.last_network.deep_view(), now),
            ),
            r.cpu_cores == self.sample.cpu_per_core@.len(),
            r.cpu_name@ == self.sample.cpu_name@,
            r.uptime_secs == self.sample.uptime_secs,
    {
        let mut interfaces: Vec<NetworkInterface> = Vec::new();
        let mut i: usize = 0;
        while i < self.sample.networks.len()
            invariant
                i <= self.sample.networks.len(),
                interfaces.len() == i,
                forall|k: int|
                    0 <= k < i ==> interfaces[k]@ == interface_of(
                        #[trigger] self.sample.networks[k]@,
                        self.last_network.deep_view(),
                        now,
                    ),
            decreases self.sample.networks.len() - i,
        {
            let counters = &self.sample.networks[i];
            let (rx_rate, tx_rate) = match self.baseline_of(&counters.name) {
                Some(at) => {
                    let reading = &self.last_network[at];
                    let elapsed = if now >= reading.at_ms {
                        now - reading.at_ms
                    } else {
                        0
                    };
                    (
                        transfer_rate(counters.rx_bytes, reading.rx_bytes, elapsed),
                        transfer_rate(counters.tx_bytes, reading.tx_bytes, elapsed),
                    )
                },
                None => (0, 0),
            };
            interfaces.push(
                NetworkInterface {
                    name: counters.name.clone(),
                    rx_bytes: counters.rx_bytes,
                    tx_bytes: counters.tx_bytes,
                    rx_rate,
                    tx_rate,
                },
            );
            i += 1;
        }
        assert(interfaces.deep_view() =~= self.sample.networks.deep_view().map_values(
            |c: NetworkCountersView| interface_of(c, self.last_network.deep_view(), now),
        ));
        let cores = self.sample.cpu_per_core.clone();
        assert(cores@ =~= self.sample.cpu_per_core@);
        SystemResources {
            cpu_permille: self.sample.cpu_permille,
            cpu_per_core: cores,
            total_memory: self.sample.total_memory,
            used_memory: self.sample.used_memory,
            available_memory: self.sample.available_memory,
            total_swap: self.sample.total_swap,
            used_swap: self.sample.used_swap,
            network_interfaces: interfaces,
            cpu_cores: self.sample.cpu_per_core.len(),
            cpu_name: self.sample.cpu_name.clone(),
            uptime_secs: self.sample.uptime_secs,
        }
    }

    /// Looks up the sample of the process `pid`.
    fn sample_of(&self, pid: u32) -> (r: Option<ProcessSample>)
        ensures
            r == find_process(self.sample.processes@, pid),
    {
        let ghost all = self.sample.processes@;
        let mut i: usize = 0;
        assert(all.skip(0) =~= all);
        while i < self.sample.processes.len()
            invariant
                i <= self.sample.processes.len(),
                all == self.sample.processes@,
                find_process(all, pid) == find_process(all.skip(i as int), pid),
            decreases self.sample.processes.len() - i,
        {
            proof {
                assert(all.skip(i as int)[0] == self.sample.processes[i as int]);
                assert(all.skip(i as int).drop_first() =~= all.skip(i + 1));
            }
            if self.sample.processes[i].pid == pid {
                return Some(self.sample.processes[i]);
            }
            i += 1;
        }
        proof {
            assert(all.skip(i as int).len() == 0);
        }
        None
    }

    /// The usage of the process `pid` as of the last poll, or nothing if the
    /// poll did not see the process. The network figures are a coarse
    /// stand-in and no per-process accounting; see `usage_of`.
    pub fn get_process_usage(&self, pid: u32) -> (r: Option<ResourceUsage>)
        ensures
            r == match find_process(self.sample.processes@, pid) {
                Some(sample) => Some(usage_of(sample)),
                None => None,
            },
    {
        match self.sample_of(pid) {
            Some(sample) => Some(
                ResourceUsage {
                    cpu_permille: sample.cpu_permille,
                    memory_bytes: sample.memory_bytes,
                    virtual_memory_bytes: sample.virtual_memory_bytes,
                    network_rx_bytes: 0,
                    network_tx_bytes: 0,
                    network_rx_rate: 0,
                    network_tx_rate: 0,
                    disk_read_bytes: sample.disk_read_bytes,
                    disk_write_bytes: sample.disk_write_bytes,
                    open_files: 0,
                    thread_count: 0,
                    gpu_permille: 0,
                    gpu_memory_bytes: 0,
                },
            ),
            None => None,
        }
    }

    /// Whether the last poll saw the process `pid`.
    pub fn is_process_running(&self, pid: u32) -> (r: bool)
        ensures
            r == find_process(self.sample.processes@, pid) is Some,
    {
        self.sample_of(pid).is_some()
    }

    /// The processes that the last poll saw, in the order of the poll.
    pub fn get_running_pids(&self) -> (r: Vec<u32>)
        ensures
            r@ == self.sample.processes@.map_values(|p: ProcessSample| p.pid),
    {
        let mut r: Vec<u32> = Vec::new();
        let mut i: usize = 0;
        while i < self.sample.processes.len()
            invariant
                i <= self.sample.processes.len(),
                r.len() == i,
                forall|k: int| 0 <= k < i ==> r[k] == self.sample.processes[k].pid,
            decreases self.sample.processes.len() - i,
        {
            r.push(self.sample.processes[i].pid);
            i += 1;
        }
        assert(r@ =~= self.sample.processes@.map_values(|p: ProcessSample| p.pid));
        r
    }

    /// Time since the system started, in seconds, as of the last poll.
    pub fn get_uptime(&self) -> (r: u64)
        ensures
            r == self.sample.uptime_secs,
    {
        self.sample.uptime_secs
    }

    /// Number of CPU cores that the last poll saw.
    pub fn cpu_count(&self) -> (r: usize)
        ensures
            r == self.sample.cpu_per_core@.len(),
    {
        self.sample.cpu_per_core.len()
    }

    /// Physical memory in bytes, as of the last poll.
    pub fn total_memory(&self) -> (r: u64)
        ensures
            r == self.sample.total_memory,
    {
        self.sample.total_memory
    }

    /// Physical memory available in bytes, as of the last poll.
    pub fn available_memory(&self) -> (r: u64)
        ensures
            r == self.sample.available_memory,
    {
        self.sample.available_memory
    }
}

/// An interface that has no baseline reading yet reports the rate zero in
/// both directions.
pub proof fn lemma_first_sample_has_zero_rate(
    counters: NetworkCountersView,
    baseline: Seq<NetworkReadingView>,
    now: u64,
)
    requires
        forall|i: int| 0 <= i < baseline.len() ==> baseline[i].name != counters.name,
    ensures
        interface_of(counters, baseline, now).rx_rate == 0,
        interface_of(counters, baseline, now).tx_rate == 0,
    decreases baseline.len(),
{
    if baseline.len() > 0 {
        lemma_first_sample_has_zero_rate(counters, baseline.drop_first(), now);
    }
}


/// A process with its name, as listed by the operating system.
#[derive(Debug)]
pub struct ProcessName {
    /// The process.
    pub pid: u32,
    /// Its name.
    pub name: String,
}

/// What a `ProcessName` holds, as plain values.
pub struct ProcessNameView {
    pub pid: u32,
    pub name: Seq<char>,
}

impl View for ProcessName {
    type V = ProcessNameView;

    open spec fn view(&self) -> ProcessNameView {
        ProcessNameView { pid: self.pid, name: self.name@ }
    }
}

impl DeepView for ProcessName {
    type V = ProcessNameView;

    open spec fn deep_view(&self) -> ProcessNameView {
        self@
    }
}

/// The processes of a listing whose name holds `part`, in listing order.
pub open spec fn pids_named(listing: Seq<ProcessNameView>, part: Seq<char>) -> Seq<u32>
    decreases listing.len(),
{
    if listing.len() == 0 {
        Seq::empty()
    } else if has_part(listing.last().name, part) {
        pids_named(listing.drop_last(), part).push(listing.last().pid)
    } else {
        pids_named(listing.drop_last(), part)
    }
}

/// A listing with every name in lower case.
pub open spec fn lowered(listing: Seq<ProcessNameView>) -> Seq<ProcessNameView> {
    listing.map_values(
        |p: ProcessNameView| ProcessNameView { pid: p.pid, name: lowercase_of(p.name) },
    )
}

/// Picks from a listing the processes whose name holds `part`, letter case
/// counting.
pub fn processes_named(listing: &Vec<ProcessName>, part: &str) -> (r: Vec<u32>)
    ensures
        r@ == pids_named(listing.deep_view(), part@),
{
    let ghost all = listing.deep_view();
    let mut r: Vec<u32> = Vec::new();
    let mut i: usize = 0;
    assert(all.take(0) =~= Seq::<ProcessNameView>::empty());
    while i < listing.len()
        invariant
            i <= listing.len(),
            all == listing.deep_view(),
            r@ == pids_named(all.take(i as int), part@),
        decreases listing.len() - i,
    {
        proof {
            assert(all.take(i + 1).drop_last() =~= all.take(i as int));
            assert(all.take(i + 1).last() == listing[i as int]@);
        }
        if contains_text(listing[i].name.as_str(), part) {
            r.push(listing[i].pid);
        }
        i += 1;
    }
    proof {
        assert(all.take(listing.len() as int) =~= all);
    }
    r
}

/// Picks from a listing the processes whose name holds `name`, letter case
/// not counting: both are compared in lower case.
pub fn find_processes_by_name(listing: &Vec<ProcessName>, name: &str) -> (r: Vec<u32>)
    ensures
        r@ == pids_named(lowered(listing.deep_view()), lowercase_of(name@)),
{
    let wanted = to_lowercase(name);
    let mut lower: Vec<ProcessName> = Vec::new();
    let mut i: usize = 0;
    while i < listing.len()
        invariant
            i <= listing.len(),
            lower.len() == i,
            forall|k: int|
                0 <= k < i ==> lower[k]@ == (ProcessNameView {
                    pid: listing[k].pid,
                    name: lowercase_of(listing[k].name@),
                }),
        decreases listing.len() - i,
    {
        lower.push(
            ProcessName { pid: listing[i].pid, name: to_lowercase(listing[i].name.as_str()) },
        );
        i += 1;
    }
    assert(lower.deep_view() =~= lowered(listing.deep_view()));
    processes_named(&lower, wanted.as_str())
}


/// A process with the command line that started it and the path of its
/// executable, as listed by the operating system.
#[derive(Debug)]
pub struct ProcessDetail {
    /// The process.
    pub pid: u32,
    /// Its command line, argument by argument.
    pub command: Vec<String>,
    /// The path of its executable, where the system tells it.
    pub exe: Option<String>,
}

/// What a `ProcessDetail` holds, as plain values.
pub struct ProcessDetailView {
    pub pid: u32,
    pub command: Seq<Seq<char>>,
    pub exe: Option<Seq<char>>,
}

impl View for ProcessDetail {
    type V = ProcessDetailView;

    open spec fn view(&self) -> ProcessDetailView {
        ProcessDetailView {
            pid: self.pid,
            command: self.command.deep_view(),
            exe: self.exe.deep_view(),
        }
    }
}

impl DeepView for ProcessDetail {
    type V = ProcessDetailView;

    open spec fn deep_view(&self) -> ProcessDetailView {
        self@
    }
}

/// The first entry of the process `pid` in a listing.
pub open spec fn find_detail(listing: Seq<ProcessDetailView>, pid: u32) -> Option<
    ProcessDetailView,
>
    decreases listing.len(),
{
    if listing.len() == 0 {
        None
    } else if listing[0].pid == pid {
        Some(listing[0])
    } else {
        find_detail(listing.drop_first(), pid)
    }
}

/// Finds the first entry of the process `pid` in a listing.
fn detail_of(listing: &Vec<ProcessDetail>, pid: u32) -> (r: Option<usize>)
    ensures
        match r {
            Some(i) => i < listing@.len() && find_detail(listing.deep_view(), pid) == Some(
                listing[i as int]@,
            ),
            None => find_detail(listing.deep_view(), pid) is None,
        },
{
    let ghost all = listing.deep_view();
    let mut i: usize = 0;
    assert(all.skip(0) =~= all);
    while i < listing.len()
        invariant
            i <= listing.len(),
            all == listing.deep_view(),
            find_detail(all, pid) == find_detail(all.skip(i as int), pid),
        decreases listing.len() - i,
    {
        proof {
            assert(all.skip(i as int)[0] == listing[i as int]@);
            assert(all.skip(i as int).drop_first() =~= all.skip(i + 1));
        }
        if listing[i].pid == pid {
            return Some(i);
        }
        i += 1;
    }
    proof {
        assert(all.skip(i as int).len() == 0);
    }
    None
}

/// The command line of the process `pid`, or nothing if the listing does
/// not hold the process.
pub fn get_process_command(listing: &Vec<ProcessDetail>, pid: u32) -> (r: Option<Vec<String>>)
    ensures
        r.deep_view() == match find_detail(listing.deep_view(), pid) {
            Some(detail) => Some(detail.command),
            None => None,
        },
{
    match detail_of(listing, pid) {
        Some(i) => Some(crate::text::clone_texts(&listing[i].command)),
        None => None,
    }
}

/// The path of the executable of the process `pid`, or nothing if the
/// listing does not hold the process or the system does not tell the path.
pub fn get_process_exe(listing: &Vec<ProcessDetail>, pid: u32) -> (r: Option<String>)
    ensures
        r.deep_view() == match find_detail(listing.deep_view(), pid) {
            Some(detail) => detail.exe,
            None => None,
        },
{
    match detail_of(listing, pid) {
        Some(i) => crate::text::clone_opt_text(&listing[i].exe),
        None => None,
    }
}


} // verus!
