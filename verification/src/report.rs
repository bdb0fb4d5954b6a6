//! The text of the benchmark reports.

use crate::decimal::{decimal_digits, decimal_string};
use vstd::prelude::*;

verus! {

/// What the CPU report says before the number of primes found.
pub const CPU_HEADING: &'static str =
    "**Benchmark CPU**\n• Test: Calcul de nombres premiers jusqu'à 100000\n• Nombres premiers trouvés: ";

/// What the memory report says before the checksum.
pub const MEMORY_HEADING: &'static str =
    "**Benchmark Mémoire**\n• Test: Création et manipulation d'une HashMap de 1 million d'éléments\n• Somme de contrôle: ";

/// What the allocation report says before the total.
pub const IO_HEADING: &'static str =
    "**Benchmark I/O simulé**\n• Test: Création et traitement de 100 vecteurs de 10000 éléments\n• Somme totale: ";

/// What every single report says between its statistic and its duration.
pub const DURATION_LABEL: &'static str = "\n• Temps d'exécution: ";

/// The title of the combined report.
pub const ALL_HEADING: &'static str = "# Résultats des benchmarks\n\n";

/// What separates the parts of the combined report.
pub const SECTION_BREAK: &'static str = "\n\n";

/// What the combined report says before the duration of the whole run.
pub const TOTAL_DURATION_LABEL: &'static str = "**Temps total d'exécution: ";

/// What the combined report says after the duration of the whole run.
pub const ALL_FOOTER: &'static str =
    "**\n\nUtilisez `?benchmark cpu`, `?benchmark memory` ou `?benchmark io` pour des tests individuels.";

/// A single report: heading, statistic in decimal notation, and duration.
pub open spec fn single_report_text(heading: Seq<char>, statistic: nat, elapsed: Seq<char>) -> Seq<
    char,
> {
    heading + decimal_digits(statistic) + DURATION_LABEL@ + elapsed
}

/// The CPU report for a number of primes found and the text of a duration.
pub open spec fn cpu_report_text(count: nat, elapsed: Seq<char>) -> Seq<char> {
    single_report_text(CPU_HEADING@, count, elapsed)
}

/// The memory report for a checksum and the text of a duration.
pub open spec fn memory_report_text(checksum: nat, elapsed: Seq<char>) -> Seq<char> {
    single_report_text(MEMORY_HEADING@, checksum, elapsed)
}

/// The allocation report for a total and the text of a duration.
pub open spec fn io_report_text(total: nat, elapsed: Seq<char>) -> Seq<char> {
    single_report_text(IO_HEADING@, total, elapsed)
}

/// The combined report: the title, the three single reports in the order
/// CPU, memory, allocation, each followed by a blank line, then the duration
/// of the whole run and the closing hint.
pub open spec fn all_report_text(
    cpu: Seq<char>,
    memory: Seq<char>,
    io: Seq<char>,
    elapsed: Seq<char>,
) -> Seq<char> {
    ALL_HEADING@ + cpu + SECTION_BREAK@ + memory + SECTION_BREAK@ + io + SECTION_BREAK@
        + TOTAL_DURATION_LABEL@ + elapsed + ALL_FOOTER@
}

/// Writes a single report.
fn single_report(heading: &str, statistic: u64, elapsed: &str) -> (report: String)
    ensures
        report@ == single_report_text(heading@, statistic as nat, elapsed@),
{
    let mut report = String::from_str(heading);
    let digits = decimal_string(statistic);
    report.append(digits.as_str());
    report.append(DURATION_LABEL);
    report.append(elapsed);
    report
}

/// Writes the CPU report.
pub fn cpu_report(count: u64, elapsed: &str) -> (report: String)
    ensures
        report@ == cpu_report_text(count as nat, elapsed@),
{
    single_report(CPU_HEADING, count, elapsed)
}

/// Writes the memory report.
pub fn memory_report(checksum: u64, elapsed: &str) -> (report: String)
    ensures
        report@ == memory_report_text(checksum as nat, elapsed@),
{
    single_report(MEMORY_HEADING, checksum, elapsed)
}

/// Writes the allocation report.
pub fn io_report(total: u64, elapsed: &str) -> (report: String)
    ensures
        report@ == io_report_text(total as nat, elapsed@),
{
    single_report(IO_HEADING, total, elapsed)
}

/// Writes the combined report from the three single reports and the text of
/// the duration of the whole run.
pub fn all_report(cpu: &str, memory: &str, io: &str, elapsed: &str) -> (report: String)
    ensures
        report@ == all_report_text(cpu@, memory@, io@, elapsed@),
{
    let mut report = String::from_str(ALL_HEADING);
    report.append(cpu);
    report.append(SECTION_BREAK);
    report.append(memory);
    report.append(SECTION_BREAK);
    report.append(io);
    report.append(SECTION_BREAK);
    report.append(TOTAL_DURATION_LABEL);
    report.append(elapsed);
    report.append(ALL_FOOTER);
    report
}

} // verus!
