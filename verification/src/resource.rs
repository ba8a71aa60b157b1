//! Declared resource caps and sampled resource usage.

use vstd::prelude::*;
use crate::text::{decimal, push_decimal, push_two_digits, two_digits};

verus! {

/// Lowest accepted scheduling priority level.
pub const PRIORITY_MIN: i8 = -20;

/// Highest accepted scheduling priority level.
pub const PRIORITY_MAX: i8 = 19;

/// Largest accepted CPU share, in percent.
pub const CPU_PERCENT_MAX: u8 = 100;

/// Declarative caps for one instance. A zero or empty field means "unlimited".
#[derive(Debug)]
pub struct ResourceLimits {
    /// Maximum CPU share in percent (0 = unlimited).
    pub cpu_percent: u8,
    /// Cores the process may run on (empty = all cores).
    pub cpu_affinity: Vec<usize>,
    /// Maximum memory in MB (0 = unlimited).
    pub memory_mb: u64,
    /// Maximum network bandwidth in KB/s (0 = unlimited).
    pub network_kbps: u64,
    /// Scheduling priority, from -20 (most favoured) to 19 (0 = unchanged).
    pub priority: i8,
    /// Maximum GPU memory in MB (0 = unlimited).
    pub gpu_memory_mb: u64,
}

/// What a `ResourceLimits` holds, as plain values.
pub struct ResourceLimitsView {
    pub cpu_percent: u8,
    pub cpu_affinity: Seq<usize>,
    pub memory_mb: u64,
    pub network_kbps: u64,
    pub priority: i8,
    pub gpu_memory_mb: u64,
}

impl View for ResourceLimits {
    type V = ResourceLimitsView;

    open spec fn view(&self) -> ResourceLimitsView {
        ResourceLimitsView {
            cpu_percent: self.cpu_percent,
            cpu_affinity: self.cpu_affinity@,
            memory_mb: self.memory_mb,
            network_kbps: self.network_kbps,
            priority: self.priority,
            gpu_memory_mb: self.gpu_memory_mb,
        }
    }
}

/// The value `v` brought into the closed range from `lo` to `hi`.
pub open spec fn clamp_int(v: int, lo: int, hi: int) -> int {
    if v < lo {
        lo
    } else if v > hi {
        hi
    } else {
        v
    }
}

impl ResourceLimits {
    /// True when no cap at all is declared.
    pub open spec fn is_unlimited(&self) -> bool {
        &&& self.cpu_percent == 0
        &&& self.cpu_affinity@.len() == 0
        &&& self.memory_mb == 0
        &&& self.network_kbps == 0
        &&& self.priority == 0
        &&& self.gpu_memory_mb == 0
    }

    /// Limits with nothing capped.
    pub fn unlimited() -> (r: Self)
        ensures
            r.is_unlimited(),
    {
        ResourceLimits {
            cpu_percent: 0,
            cpu_affinity: Vec::new(),
            memory_mb: 0,
            network_kbps: 0,
            priority: 0,
            gpu_memory_mb: 0,
        }
    }

    /// Caps the CPU share; anything above 100 is taken as 100.
    pub fn with_cpu_limit(self, percent: u8) -> (r: Self)
        ensures
            r.cpu_percent as int == clamp_int(percent as int, 0, 100),
            r.cpu_affinity == self.cpu_affinity,
            r.memory_mb == self.memory_mb,
            r.network_kbps == self.network_kbps,
            r.priority == self.priority,
            r.gpu_memory_mb == self.gpu_memory_mb,
    {
        let mut r = self;
        r.cpu_percent = if percent > CPU_PERCENT_MAX {
            CPU_PERCENT_MAX
        } else {
            percent
        };
        r
    }

    /// Caps the memory, in MB.
    pub fn with_memory_limit(self, mb: u64) -> (r: Self)
        ensures
            r.memory_mb == mb,
            r.cpu_percent == self.cpu_percent,
            r.cpu_affinity == self.cpu_affinity,
            r.network_kbps == self.network_kbps,
            r.priority == self.priority,
            r.gpu_memory_mb == self.gpu_memory_mb,
    {
        let mut r = self;
        r.memory_mb = mb;
        r
    }

    /// Caps the network bandwidth, in KB/s.
    pub fn with_network_limit(self, kbps: u64) -> (r: Self)
        ensures
            r.network_kbps == kbps,
            r.cpu_percent == self.cpu_percent,
            r.cpu_affinity == self.cpu_affinity,
            r.memory_mb == self.memory_mb,
            r.priority == self.priority,
            r.gpu_memory_mb == self.gpu_memory_mb,
    {
        let mut r = self;
        r.network_kbps = kbps;
        r
    }

    /// Sets the scheduling priority, brought into the range -20..=19.
    pub fn with_priority(self, priority: i8) -> (r: Self)
        ensures
            r.priority as int == clamp_int(priority as int, -20, 19),
            r.cpu_percent == self.cpu_percent,
            r.cpu_affinity == self.cpu_affinity,
            r.memory_mb == self.memory_mb,
            r.network_kbps == self.network_kbps,
            r.gpu_memory_mb == self.gpu_memory_mb,
    {
        let mut r = self;
        r.priority = if priority < PRIORITY_MIN {
            PRIORITY_MIN
        } else if priority > PRIORITY_MAX {
            PRIORITY_MAX
        } else {
            priority
        };
        r
    }

    /// Pins the process to the given cores.
    pub fn with_cpu_affinity(self, cores: Vec<usize>) -> (r: Self)
        ensures
            r.cpu_affinity == cores,
            r.cpu_percent == self.cpu_percent,
            r.memory_mb == self.memory_mb,
            r.network_kbps == self.network_kbps,
            r.priority == self.priority,
            r.gpu_memory_mb == self.gpu_memory_mb,
    {
        let mut r = self;
        r.cpu_affinity = cores;
        r
    }

    /// Whether any cap is declared: false exactly when every field is at its
    /// zero or empty value.
    pub fn has_limits(&self) -> (r: bool)
        ensures
            r == !self.is_unlimited(),
    {
        self.cpu_percent > 0 || self.cpu_affinity.len() > 0 || self.memory_mb > 0
            || self.network_kbps > 0 || self.priority != 0 || self.gpu_memory_mb > 0
    }
}

/// Windows priority class for real-time scheduling.
pub const REALTIME_PRIORITY_CLASS: u32 = 0x100;

/// Windows priority class above `ABOVE_NORMAL_PRIORITY_CLASS`.
pub const HIGH_PRIORITY_CLASS: u32 = 0x80;

/// Windows priority class between normal and high.
pub const ABOVE_NORMAL_PRIORITY_CLASS: u32 = 0x8000;

/// Windows priority class of an ordinary process.
pub const NORMAL_PRIORITY_CLASS: u32 = 0x20;

/// Windows priority class between idle and normal.
pub const BELOW_NORMAL_PRIORITY_CLASS: u32 = 0x4000;

/// Windows priority class that runs only when the system is idle.
pub const IDLE_PRIORITY_CLASS: u32 = 0x40;

/// The Windows priority class that stands for a level on the signed scale,
/// where lower levels are more favoured.
pub open spec fn priority_class_of(level: int) -> u32 {
    if level <= -15 {
        REALTIME_PRIORITY_CLASS
    } else if level <= -10 {
        HIGH_PRIORITY_CLASS
    } else if level <= -5 {
        ABOVE_NORMAL_PRIORITY_CLASS
    } else if level <= 5 {
        NORMAL_PRIORITY_CLASS
    } else if level <= 10 {
        BELOW_NORMAL_PRIORITY_CLASS
    } else {
        IDLE_PRIORITY_CLASS
    }
}

impl ResourceLimits {
    /// The Windows priority class for the declared priority.
    pub fn windows_priority_class(&self) -> (r: u32)
        ensures
            r == priority_class_of(self.priority as int),
    {
        let p = self.priority;
        if p <= -15 {
            REALTIME_PRIORITY_CLASS
        } else if p <= -10 {
            HIGH_PRIORITY_CLASS
        } else if p <= -5 {
            ABOVE_NORMAL_PRIORITY_CLASS
        } else if p <= 5 {
            NORMAL_PRIORITY_CLASS
        } else if p <= 10 {
            BELOW_NORMAL_PRIORITY_CLASS
        } else {
            IDLE_PRIORITY_CLASS
        }
    }

    /// The Unix niceness for the declared priority: the same number.
    pub fn unix_nice_value(&self) -> (r: i32)
        ensures
            r == self.priority,
    {
        self.priority as i32
    }
}

impl Clone for ResourceLimits {
    fn clone(&self) -> (r: Self)
        ensures
            r@ == self@,
    {
        let cores = self.cpu_affinity.clone();
        assert(cores@ =~= self.cpu_affinity@);
        ResourceLimits {
            cpu_percent: self.cpu_percent,
            cpu_affinity: cores,
            memory_mb: self.memory_mb,
            network_kbps: self.network_kbps,
            priority: self.priority,
            gpu_memory_mb: self.gpu_memory_mb,
        }
    }
}

/// Limits are unlimited exactly when every field is at its zero or empty
/// value, that is, when they hold what the default limits hold; a single
/// field that deviates makes them limited.
pub proof fn lemma_unlimited_is_default(limits: ResourceLimits)
    ensures
        limits.is_unlimited() <==> limits@ == (ResourceLimitsView {
            cpu_percent: 0,
            cpu_affinity: Seq::empty(),
            memory_mb: 0,
            network_kbps: 0,
            priority: 0,
            gpu_memory_mb: 0,
        }),
        limits.cpu_percent != 0 ==> !limits.is_unlimited(),
        limits.cpu_affinity@.len() != 0 ==> !limits.is_unlimited(),
        limits.memory_mb != 0 ==> !limits.is_unlimited(),
        limits.network_kbps != 0 ==> !limits.is_unlimited(),
        limits.priority != 0 ==> !limits.is_unlimited(),
        limits.gpu_memory_mb != 0 ==> !limits.is_unlimited(),
{
    if limits.is_unlimited() {
        assert(limits.cpu_affinity@ =~= Seq::empty());
    }
}

impl Default for ResourceLimits {
    fn default() -> (r: Self)
        ensures
            r.is_unlimited(),
    {
        ResourceLimits::unlimited()
    }
}

/// The latest resource snapshot of one instance. It is overwritten as a whole
/// on every monitor tick and reset when the instance stops or crashes.
#[derive(Debug, Clone, Copy, PartialEq, Eq, Structural)]
pub struct ResourceUsage {
    /// CPU share in tenths of a percent (1000 = one fully used core).
    pub cpu_permille: u32,
    /// Resident memory in bytes.
    pub memory_bytes: u64,
    /// Virtual memory in bytes.
    pub virtual_memory_bytes: u64,
    /// Network bytes received since start.
    pub network_rx_bytes: u64,
    /// Network bytes transmitted since start.
    pub network_tx_bytes: u64,
    /// Current receive rate in bytes per second.
    pub network_rx_rate: u64,
    /// Current transmit rate in bytes per second.
    pub network_tx_rate: u64,
    /// Bytes read from disk since start.
    pub disk_read_bytes: u64,
    /// Bytes written to disk since start.
    pub disk_write_bytes: u64,
    /// Number of open file handles.
    pub open_files: u32,
    /// Number of threads.
    pub thread_count: u32,
    /// GPU share in tenths of a percent.
    pub gpu_permille: u32,
    /// GPU memory in bytes.
    pub gpu_memory_bytes: u64,
}

impl ResourceUsage {
    /// The snapshot of a process that uses nothing.
    pub open spec fn zero() -> Self {
        ResourceUsage {
            cpu_permille: 0,
            memory_bytes: 0,
            virtual_memory_bytes: 0,
            network_rx_bytes: 0,
            network_tx_bytes: 0,
            network_rx_rate: 0,
            network_tx_rate: 0,
            disk_read_bytes: 0,
            disk_write_bytes: 0,
            open_files: 0,
            thread_count: 0,
            gpu_permille: 0,
            gpu_memory_bytes: 0,
        }
    }

    /// Resident memory as a human-readable size.
    pub fn memory_string(&self) -> (r: String)
        ensures
            r@ == byte_size_text(self.memory_bytes as nat),
    {
        format_bytes(self.memory_bytes)
    }

    /// Receive rate as a human-readable size per second.
    pub fn rx_rate_string(&self) -> (r: String)
        ensures
            r@ == byte_size_text(self.network_rx_rate as nat) + seq!['/', 's'],
    {
        proof {
            reveal_strlit("/s");
        }
        let r = format_bytes(self.network_rx_rate).concat("/s");
        assert(r@ =~= byte_size_text(self.network_rx_rate as nat) + seq!['/', 's']);
        r
    }

    /// Transmit rate as a human-readable size per second.
    pub fn tx_rate_string(&self) -> (r: String)
        ensures
            r@ == byte_size_text(self.network_tx_rate as nat) + seq!['/', 's'],
    {
        proof {
            reveal_strlit("/s");
        }
        let r = format_bytes(self.network_tx_rate).concat("/s");
        assert(r@ =~= byte_size_text(self.network_tx_rate as nat) + seq!['/', 's']);
        r
    }

    /// CPU share as a percentage with one decimal place.
    pub fn cpu_string(&self) -> (r: String)
        ensures
            r@ == permille_text(self.cpu_permille as nat),
    {
        proof {
            reveal_strlit(".");
            reveal_strlit("%");
        }
        let mut r = String::new();
        push_decimal(&mut r, (self.cpu_permille / 10) as u64);
        r.append(".");
        push_decimal(&mut r, (self.cpu_permille % 10) as u64);
        r.append("%");
        assert(r@ =~= permille_text(self.cpu_permille as nat));
        r
    }
}

impl Default for ResourceUsage {
    fn default() -> (r: Self)
        ensures
            r == ResourceUsage::zero(),
    {
        ResourceUsage {
            cpu_permille: 0,
            memory_bytes: 0,
            virtual_memory_bytes: 0,
            network_rx_bytes: 0,
            network_tx_bytes: 0,
            network_rx_rate: 0,
            network_tx_rate: 0,
            disk_read_bytes: 0,
            disk_write_bytes: 0,
            open_files: 0,
            thread_count: 0,
            gpu_permille: 0,
            gpu_memory_bytes: 0,
        }
    }
}

/// A share given in tenths of a percent, written as a percentage with one
/// decimal place.
pub open spec fn permille_text(permille: nat) -> Seq<char> {
    decimal(permille / 10) + seq!['.'] + decimal(permille % 10) + seq!['%']
}

/// Bytes in a kibibyte.
pub const KB: u64 = 0x400;

/// Bytes in a mebibyte.
pub const MB: u64 = 0x10_0000;

/// Bytes in a gibibyte.
pub const GB: u64 = 0x4000_0000;

/// Bytes in a tebibyte.
pub const TB: u64 = 0x100_0000_0000;

/// The first integer that a binary number of 53 significant bits cannot
/// always hold exactly.
pub const PRECISION_LIMIT: u64 = 0x20_0000_0000_0000;

/// The integer nearest to `num / den`, the even one of two that are equally
/// near.
pub open spec fn round_half_even(num: nat, den: nat) -> nat
    recommends
        den > 0,
{
    let q = num / den;
    let r = num % den;
    if 2 * r > den || (2 * r == den && q % 2 == 1) {
        q + 1
    } else {
        q
    }
}

/// The spacing of the numbers with 53 significant bits around `n`.
pub open spec fn rounding_unit(n: nat) -> nat
    decreases n,
{
    if n < PRECISION_LIMIT as nat {
        1
    } else {
        2 * rounding_unit(n / 2)
    }
}

/// `n` kept to 53 significant bits, as double-precision arithmetic holds it.
pub open spec fn to_precision(n: nat) -> nat {
    round_half_even(n, rounding_unit(n)) * rounding_unit(n)
}

/// The size `bytes` in hundredths of `unit`, rounded to the nearest.
pub open spec fn hundredths_of(bytes: nat, unit: nat) -> nat
    recommends
        unit > 0,
{
    round_half_even(to_precision(bytes) * 100, unit)
}

/// A count of hundredths written with two decimal places.
pub open spec fn fixed2_text(hundredths: nat) -> Seq<char> {
    decimal(hundredths / 100) + seq!['.'] + two_digits(hundredths % 100)
}

/// The human-readable rendering of a byte count: whole bytes below one
/// kibibyte, else two decimal places of the largest binary unit up to the
/// tebibyte that does not exceed it.
pub open spec fn byte_size_text(bytes: nat) -> Seq<char> {
    if bytes >= TB as nat {
        fixed2_text(hundredths_of(bytes, TB as nat)) + seq![' ', 'T', 'B']
    } else if bytes >= GB as nat {
        fixed2_text(hundredths_of(bytes, GB as nat)) + seq![' ', 'G', 'B']
    } else if bytes >= MB as nat {
        fixed2_text(hundredths_of(bytes, MB as nat)) + seq![' ', 'M', 'B']
    } else if bytes >= KB as nat {
        fixed2_text(hundredths_of(bytes, KB as nat)) + seq![' ', 'K', 'B']
    } else {
        decimal(bytes) + seq![' ', 'B']
    }
}

/// Computes `rounding_unit`, with the bounds that keep later arithmetic in
/// range.
fn rounding_unit_of(n: u64) -> (u: u64)
    ensures
        u == rounding_unit(n as nat),
        1 <= u <= 0x1000,
        u == 1 || u * 0x10_0000_0000_0000 <= n,
    decreases n,
{
    if n < PRECISION_LIMIT {
        1
    } else {
        let h = rounding_unit_of(n / 2);
        2 * h
    }
}

/// Computes `round_half_even` for a quotient that fits the result type.
fn round_half_even_of(num: u128, den: u128) -> (r: u128)
    requires
        den > 0,
        num / den < u128::MAX,
        den <= u128::MAX / 2,
    ensures
        r == round_half_even(num as nat, den as nat),
{
    let q = num / den;
    let r = num % den;
    if 2 * r > den || (2 * r == den && q % 2 == 1) {
        q + 1
    } else {
        q
    }
}

/// Writes `bytes` in hundredths of `unit` with two decimal places, followed
/// by `suffix`.
fn format_scaled(bytes: u64, unit: u64, suffix: &str) -> (r: String)
    requires
        unit >= KB,
        bytes >= unit,
    ensures
        r@ == fixed2_text(hundredths_of(bytes as nat, unit as nat)) + suffix@,
{
    proof {
        reveal_strlit(".");
    }
    let step = rounding_unit_of(bytes);
    let kept = round_half_even_of(bytes as u128, step as u128);
    assert(kept * step <= bytes + step) by (nonlinear_arith)
        requires
            kept <= bytes as int / step as int + 1,
            step >= 1,
    ;
    let exact: u128 = kept * (step as u128);
    let h = round_half_even_of(exact * 100, unit as u128);
    assert(h <= (exact * 100) as int / (unit as int) + 1);
    assert((exact * 100) as int / (unit as int) <= (exact * 100) as int / 0x400) by (nonlinear_arith)
        requires
            unit >= 0x400,
            exact >= 0,
    ;
    let mut r = String::new();
    push_decimal(&mut r, (h / 100) as u64);
    r.append(".");
    push_two_digits(&mut r, (h % 100) as u8);
    r.append(suffix);
    assert(r@ =~= fixed2_text(hundredths_of(bytes as nat, unit as nat)) + suffix@);
    r
}

/// Renders a byte count for people: `"512 B"`, `"1.50 KB"`, `"2.00 GB"`.
pub fn format_bytes(bytes: u64) -> (r: String)
    ensures
        r@ == byte_size_text(bytes as nat),
{
    proof {
        reveal_strlit(" TB");
        reveal_strlit(" GB");
        reveal_strlit(" MB");
        reveal_strlit(" KB");
        reveal_strlit(" B");
    }
    if bytes >= TB {
        let r = format_scaled(bytes, TB, " TB");
        assert(" TB"@ =~= seq![' ', 'T', 'B']);
        r
    } else if bytes >= GB {
        let r = format_scaled(bytes, GB, " GB");
        assert(" GB"@ =~= seq![' ', 'G', 'B']);
        r
    } else if bytes >= MB {
        let r = format_scaled(bytes, MB, " MB");
        assert(" MB"@ =~= seq![' ', 'M', 'B']);
        r
    } else if bytes >= KB {
        let r = format_scaled(bytes, KB, " KB");
        assert(" KB"@ =~= seq![' ', 'K', 'B']);
        r
    } else {
        let mut r = String::new();
        push_decimal(&mut r, bytes);
        r.append(" B");
        assert(r@ =~= decimal(bytes as nat) + seq![' ', 'B']);
        r
    }
}


/// One network interface with its counters and current rates.
#[derive(Debug)]
pub struct NetworkInterface {
    /// Name of the interface.
    pub name: String,
    /// Bytes received in total.
    pub rx_bytes: u64,
    /// Bytes transmitted in total.
    pub tx_bytes: u64,
    /// Current receive rate in bytes per second.
    pub rx_rate: u64,
    /// Current transmit rate in bytes per second.
    pub tx_rate: u64,
}

/// What a `NetworkInterface` holds, as plain values.
pub struct NetworkInterfaceView {
    pub name: Seq<char>,
    pub rx_bytes: u64,
    pub tx_bytes: u64,
    pub rx_rate: u64,
    pub tx_rate: u64,
}

impl View for NetworkInterface {
    type V = NetworkInterfaceView;

    open spec fn view(&self) -> NetworkInterfaceView {
        NetworkInterfaceView {
            name: self.name@,
            rx_bytes: self.rx_bytes,
            tx_bytes: self.tx_bytes,
            rx_rate: self.rx_rate,
            tx_rate: self.tx_rate,
        }
    }
}

impl DeepView for NetworkInterface {
    type V = NetworkInterfaceView;

    open spec fn deep_view(&self) -> NetworkInterfaceView {
        self@
    }
}

/// System-wide resource figures.
#[derive(Debug)]
pub struct SystemResources {
    /// CPU use over all cores, in tenths of a percent.
    pub cpu_permille: u32,
    /// CPU use of each core, in tenths of a percent.
    pub cpu_per_core: Vec<u32>,
    /// Physical memory in bytes.
    pub total_memory: u64,
    /// Physical memory in use, in bytes.
    pub used_memory: u64,
    /// Physical memory available, in bytes.
    pub available_memory: u64,
    /// Swap space in bytes.
    pub total_swap: u64,
    /// Swap space in use, in bytes.
    pub used_swap: u64,
    /// The network interfaces with their counters and rates.
    pub network_interfaces: Vec<NetworkInterface>,
    /// Number of CPU cores.
    pub cpu_cores: usize,
    /// Brand name of the CPU.
    pub cpu_name: String,
    /// Time since the system started, in seconds.
    pub uptime_secs: u64,
}

/// The share `used / total` in tenths of a percent, rounded down; zero where
/// there is no total.
pub open spec fn permille_of(used: u64, total: u64) -> u64 {
    if total == 0 {
        0
    } else if used * 1000 / (total as int) > u64::MAX {
        u64::MAX
    } else {
        (used * 1000 / (total as int)) as u64
    }
}

/// Computes the share `used / total` in tenths of a percent.
pub fn share_permille(used: u64, total: u64) -> (r: u64)
    ensures
        r == permille_of(used, total),
{
    if total == 0 {
        0
    } else {
        let scaled: u128 = (used as u128) * 1000 / (total as u128);
        if scaled > u64::MAX as u128 {
            u64::MAX
        } else {
            scaled as u64
        }
    }
}

impl SystemResources {
    /// Physical memory in use, in tenths of a percent of the total.
    pub fn memory_percent(&self) -> (r: u64)
        ensures
            r == permille_of(self.used_memory, self.total_memory),
    {
        share_permille(self.used_memory, self.total_memory)
    }

    /// Swap space in use, in tenths of a percent of the total.
    pub fn swap_percent(&self) -> (r: u64)
        ensures
            r == permille_of(self.used_swap, self.total_swap),
    {
        share_permille(self.used_swap, self.total_swap)
    }

    /// Physical memory as a human-readable size.
    pub fn total_memory_string(&self) -> (r: String)
        ensures
            r@ == byte_size_text(self.total_memory as nat),
    {
        format_bytes(self.total_memory)
    }

    /// Physical memory in use as a human-readable size.
    pub fn used_memory_string(&self) -> (r: String)
        ensures
            r@ == byte_size_text(self.used_memory as nat),
    {
        format_bytes(self.used_memory)
    }

    /// Physical memory available as a human-readable size.
    pub fn available_memory_string(&self) -> (r: String)
        ensures
            r@ == byte_size_text(self.available_memory as nat),
    {
        format_bytes(self.available_memory)
    }
}


} // verus!
