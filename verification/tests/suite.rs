use benchmark_bot::suite::{
    run_all_benchmarks, run_benchmark, run_cpu_benchmark, run_io_benchmark,
    run_memory_benchmark, Variant,
};

const DURATION_LABEL: &str = "\n• Temps d'exécution: ";

fn is_duration(text: &str) -> bool {
    let unit_at = match text.find(|c: char| !c.is_ascii_digit() && c != '.') {
        Some(at) => at,
        None => return false,
    };
    let (number, unit) = text.split_at(unit_at);
    let point_at = match number.find('.') {
        Some(at) => at,
        None => return false,
    };
    let whole = &number[..point_at];
    let fraction = &number[point_at + 1..];
    !whole.is_empty()
        && whole.chars().all(|c| c.is_ascii_digit())
        && fraction.len() == 2
        && fraction.chars().all(|c| c.is_ascii_digit())
        && (unit == "s" || unit == "ms" || unit == "µs" || unit == "ns")
}

fn duration_of(report: &str, heading: &str, statistic: &str) -> String {
    let opening = format!("{}{}{}", heading, statistic, DURATION_LABEL);
    assert!(report.starts_with(&opening), "report was: {}", report);
    report[opening.len()..].to_string()
}

const CPU_HEADING: &str =
    "**Benchmark CPU**\n• Test: Calcul de nombres premiers jusqu'à 100000\n• Nombres premiers trouvés: ";
const MEMORY_HEADING: &str =
    "**Benchmark Mémoire**\n• Test: Création et manipulation d'une HashMap de 1 million d'éléments\n• Somme de contrôle: ";
const IO_HEADING: &str =
    "**Benchmark I/O simulé**\n• Test: Création et traitement de 100 vecteurs de 10000 éléments\n• Somme totale: ";

#[test]
fn the_cpu_benchmark_reports_the_count_of_primes() {
    let report = run_cpu_benchmark();
    let duration = duration_of(&report, CPU_HEADING, "9592");
    assert!(is_duration(&duration), "duration was: {}", duration);
}

#[test]
fn the_memory_benchmark_reports_the_checksum() {
    let report = run_memory_benchmark();
    let duration = duration_of(&report, MEMORY_HEADING, "38890");
    assert!(is_duration(&duration), "duration was: {}", duration);
}

#[test]
fn the_allocation_benchmark_reports_the_total() {
    let report = run_io_benchmark();
    let duration = duration_of(&report, IO_HEADING, "126450000");
    assert!(is_duration(&duration), "duration was: {}", duration);
}

#[test]
fn the_statistics_do_not_depend_on_the_run() {
    let first = run_cpu_benchmark();
    let second = run_cpu_benchmark();
    let statistic_end = CPU_HEADING.len() + "9592".len();
    assert_eq!(first[..statistic_end], second[..statistic_end]);
}

#[test]
fn the_combined_benchmark_reports_three_sections_and_the_whole_duration() {
    let report = run_all_benchmarks();
    let body = report
        .strip_prefix("# Résultats des benchmarks\n\n")
        .expect("the title comes first");
    let body = body
        .strip_suffix(
            "**\n\nUtilisez `?benchmark cpu`, `?benchmark memory` ou `?benchmark io` pour des tests individuels.",
        )
        .expect("the hint comes last");
    let sections: Vec<&str> = body.split("\n\n").collect();
    assert_eq!(sections.len(), 4);
    assert!(is_duration(&duration_of(sections[0], CPU_HEADING, "9592")));
    assert!(is_duration(&duration_of(sections[1], MEMORY_HEADING, "38890")));
    assert!(is_duration(&duration_of(sections[2], IO_HEADING, "126450000")));
    let whole = sections[3]
        .strip_prefix("**Temps total d'exécution: ")
        .expect("the whole duration comes after the sections");
    assert!(is_duration(whole), "duration was: {}", whole);
    assert_eq!(report.matches("• Temps d'exécution: ").count(), 3);
    assert_eq!(report.matches("**Temps total d'exécution: ").count(), 1);
}

#[test]
fn each_variant_runs_its_own_workload() {
    assert!(run_benchmark(Variant::Cpu).starts_with(CPU_HEADING));
    assert!(run_benchmark(Variant::Memory).starts_with(MEMORY_HEADING));
    assert!(run_benchmark(Variant::Io).starts_with(IO_HEADING));
    assert!(run_benchmark(Variant::All).starts_with("# Résultats des benchmarks\n\n"));
}
