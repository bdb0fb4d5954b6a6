//! The benchmark suite: three timed workloads and the run of all three.

use crate::clock::{duration_format, duration_text};
use crate::io::{io_total, lemma_pattern_sum, pattern_sum};
use crate::memory::{digits_total, lemma_digits_total, memory_checksum};
use crate::primes::{count_primes_below, prime_count};
use crate::report::{
    all_report, all_report_text, cpu_report, cpu_report_text, io_report, io_report_text,
    memory_report, memory_report_text,
};
use vstd::prelude::*;

verus! {

/// The CPU workload counts the primes below this bound.
pub const PRIME_BOUND: u32 = 100_000;

/// The memory workload inserts this many keys.
pub const MEMORY_INSERTS: u32 = 1_000_000;

/// The memory workload looks up this many keys.
pub const MEMORY_PROBES: u32 = 10_000;

/// The allocation workload allocates this many sequences.
pub const IO_SEQUENCES: u32 = 100;

/// Each sequence of the allocation workload holds this many elements.
pub const IO_ELEMENTS: u32 = 10_000;

/// The word that names the CPU workload.
pub const CPU_LABEL: &'static str = "cpu";

/// The word that names the memory workload.
pub const MEMORY_LABEL: &'static str = "memory";

/// The word that names the allocation workload.
pub const IO_LABEL: &'static str = "io";

/// The word that names the run of all three workloads.
pub const DEFAULT_LABEL: &'static str = "all";

/// The workloads of the suite. `Io` is an allocation workload held in
/// memory; it reads and writes nothing.
#[derive(Clone, Copy, Debug, PartialEq, Eq, Structural)]
pub enum Variant {
    Cpu,
    Memory,
    Io,
    All,
}

/// What the CPU workload finds: the number of primes below the bound.
pub open spec fn cpu_statistic() -> nat {
    prime_count(PRIME_BOUND as nat)
}

/// What the memory workload finds: the summed lengths of the decimal
/// notations of the keys that it looks up, all of which it has inserted.
pub open spec fn memory_statistic() -> nat {
    digits_total(MEMORY_PROBES as nat)
}

/// What the allocation workload finds: the pattern summed over every
/// sequence.
pub open spec fn io_statistic() -> nat {
    IO_SEQUENCES as nat * pattern_sum(IO_ELEMENTS as nat)
}

/// The statistics of the memory and the allocation workload as numbers.
pub proof fn lemma_statistics()
    ensures
        memory_statistic() == 38_890,
        io_statistic() == 126_450_000,
{
    lemma_digits_total(10_000);
    lemma_pattern_sum(10_000);
    assert(10_000nat / 255 == 39 && 10_000nat % 255 == 55);
    assert(2 * pattern_sum(10_000) == 39 * 64770 + 55 * 54);
}

/// `text` is what a duration of less than a second beyond some whole
/// seconds is written as.
pub open spec fn is_duration(text: Seq<char>) -> bool {
    exists|secs: u64, nanos: u32|
        nanos < 1_000_000_000 && text == #[trigger] duration_format(secs, nanos)
}

/// `text` is the CPU report with the statistic of the CPU workload and the
/// text of some duration.
pub open spec fn is_cpu_report(text: Seq<char>) -> bool {
    exists|secs: u64, nanos: u32|
        nanos < 1_000_000_000 && text == cpu_report_text(
            cpu_statistic(),
            #[trigger] duration_format(secs, nanos),
        )
}

/// `text` is the memory report with the statistic of the memory workload and
/// the text of some duration.
pub open spec fn is_memory_report(text: Seq<char>) -> bool {
    exists|secs: u64, nanos: u32|
        nanos < 1_000_000_000 && text == memory_report_text(
            memory_statistic(),
            #[trigger] duration_format(secs, nanos),
        )
}

/// `text` is the allocation report with the statistic of the allocation
/// workload and the text of some duration.
pub open spec fn is_io_report(text: Seq<char>) -> bool {
    exists|secs: u64, nanos: u32|
        nanos < 1_000_000_000 && text == io_report_text(
            io_statistic(),
            #[trigger] duration_format(secs, nanos),
        )
}

/// `text` is the combined report of a CPU report, a memory report and an
/// allocation report, each with its own duration, and the text of some
/// duration for the whole run.
pub open spec fn is_all_report(text: Seq<char>) -> bool {
    exists|cpu: Seq<char>, memory: Seq<char>, io: Seq<char>, whole: Seq<char>|
        is_cpu_report(cpu) && is_memory_report(memory) && is_io_report(io) && is_duration(whole)
            && text == #[trigger] all_report_text(cpu, memory, io, whole)
}

/// `text` is a report of the given workload.
pub open spec fn is_report_of(variant: Variant, text: Seq<char>) -> bool {
    match variant {
        Variant::Cpu => is_cpu_report(text),
        Variant::Memory => is_memory_report(text),
        Variant::Io => is_io_report(text),
        Variant::All => is_all_report(text),
    }
}

/// The word that names a workload.
pub open spec fn word(variant: Variant) -> Seq<char> {
    match variant {
        Variant::Cpu => CPU_LABEL@,
        Variant::Memory => MEMORY_LABEL@,
        Variant::Io => IO_LABEL@,
        Variant::All => DEFAULT_LABEL@,
    }
}

/// The word that names a workload.
pub fn variant_word(variant: Variant) -> (label: &'static str)
    ensures
        label@ == word(variant),
{
    match variant {
        Variant::Cpu => CPU_LABEL,
        Variant::Memory => MEMORY_LABEL,
        Variant::Io => IO_LABEL,
        Variant::All => DEFAULT_LABEL,
    }
}

/// The time that has passed since `start`, as the reports write it.
fn elapsed_text(start: &std::time::Instant) -> (text: String)
    ensures
        is_duration(text@),
{
    let elapsed = start.elapsed();
    let secs = elapsed.as_secs();
    let nanos = elapsed.subsec_nanos();
    let text = duration_text(secs, nanos);
    assert(text@ == duration_format(secs, nanos));
    text
}

/// Times the CPU workload and reports the number of primes found.
pub fn run_cpu_benchmark() -> (report: String)
    ensures
        is_cpu_report(report@),
{
    let start = std::time::Instant::now();
    let count = count_primes_below(PRIME_BOUND);
    let elapsed = elapsed_text(&start);
    let report = cpu_report(count as u64, elapsed.as_str());
    proof {
        let (secs, nanos) = choose|secs: u64, nanos: u32|
            nanos < 1_000_000_000 && elapsed@ == #[trigger] duration_format(secs, nanos);
        assert(report@ == cpu_report_text(cpu_statistic(), duration_format(secs, nanos)));
    }
    report
}

/// Times the memory workload and reports its checksum.
pub fn run_memory_benchmark() -> (report: String)
    ensures
        is_memory_report(report@),
{
    let start = std::time::Instant::now();
    let checksum = memory_checksum(MEMORY_INSERTS, MEMORY_PROBES);
    let elapsed = elapsed_text(&start);
    let report = memory_report(checksum, elapsed.as_str());
    proof {
        let (secs, nanos) = choose|secs: u64, nanos: u32|
            nanos < 1_000_000_000 && elapsed@ == #[trigger] duration_format(secs, nanos);
        assert(report@ == memory_report_text(memory_statistic(), duration_format(secs, nanos)));
    }
    report
}

/// Times the allocation workload and reports its total.
pub fn run_io_benchmark() -> (report: String)
    ensures
        is_io_report(report@),
{
    let start = std::time::Instant::now();
    proof {
        lemma_statistics();
    }
    let total = io_total(IO_SEQUENCES, IO_ELEMENTS);
    let elapsed = elapsed_text(&start);
    let report = io_report(total, elapsed.as_str());
    proof {
        let (secs, nanos) = choose|secs: u64, nanos: u32|
            nanos < 1_000_000_000 && elapsed@ == #[trigger] duration_format(secs, nanos);
        assert(report@ == io_report_text(io_statistic(), duration_format(secs, nanos)));
    }
    report
}

/// Runs the three workloads in the order CPU, memory, allocation, each with
/// its own timer, times the whole run as well, and reports all of it.
pub fn run_all_benchmarks() -> (report: String)
    ensures
        is_all_report(report@),
{
    let start = std::time::Instant::now();
    let cpu = run_cpu_benchmark();
    let memory = run_memory_benchmark();
    let io = run_io_benchmark();
    let elapsed = elapsed_text(&start);
    let report = all_report(cpu.as_str(), memory.as_str(), io.as_str(), elapsed.as_str());
    assert(report@ == all_report_text(cpu@, memory@, io@, elapsed@));
    report
}

/// Runs the workload that `variant` names.
pub fn run_benchmark(variant: Variant) -> (report: String)
    ensures
        is_report_of(variant, report@),
{
    match variant {
        Variant::Cpu => run_cpu_benchmark(),
        Variant::Memory => run_memory_benchmark(),
        Variant::Io => run_io_benchmark(),
        Variant::All => run_all_benchmarks(),
    }
}

} // verus!
