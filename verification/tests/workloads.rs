use benchmark_bot::io::io_total;
use benchmark_bot::memory::memory_checksum;

#[test]
fn checksum_of_the_memory_workload() {
    assert_eq!(memory_checksum(1_000_000, 10_000), 38_890);
}

#[test]
fn checksum_is_the_summed_length_of_the_decimal_notations() {
    let mut expected: u64 = 0;
    for k in 0..10_000u32 {
        expected += format!("{}", k).len() as u64;
    }
    assert_eq!(expected, 38_890);
    assert_eq!(memory_checksum(10_000, 10_000), expected);
}

#[test]
fn checksum_of_small_maps() {
    assert_eq!(memory_checksum(0, 0), 0);
    assert_eq!(memory_checksum(10, 10), 10);
    assert_eq!(memory_checksum(11, 11), 12);
    assert_eq!(memory_checksum(100, 100), 190);
    assert_eq!(memory_checksum(1_000, 1_000), 2_890);
}

#[test]
fn checksum_counts_only_the_keys_looked_up() {
    assert_eq!(memory_checksum(1_000, 10), 10);
    assert_eq!(memory_checksum(1_000, 100), 190);
}

#[test]
fn checksum_skips_the_keys_that_were_not_inserted() {
    assert_eq!(memory_checksum(0, 10), 0);
    assert_eq!(memory_checksum(5, 10), 5);
    assert_eq!(memory_checksum(100, 10_000), 190);
}

#[test]
fn total_of_the_allocation_workload() {
    assert_eq!(io_total(100, 10_000), 126_450_000);
}

#[test]
fn total_is_the_sum_of_the_pattern_over_all_sequences() {
    let mut expected: u64 = 0;
    for _ in 0..100 {
        for i in 0..10_000u64 {
            expected += i % 255;
        }
    }
    assert_eq!(expected, 126_450_000);
    assert_eq!(io_total(100, 10_000), expected);
}

#[test]
fn total_of_small_workloads() {
    assert_eq!(io_total(0, 0), 0);
    assert_eq!(io_total(0, 10), 0);
    assert_eq!(io_total(10, 0), 0);
    assert_eq!(io_total(1, 1), 0);
    assert_eq!(io_total(1, 4), 6);
    assert_eq!(io_total(3, 4), 18);
}

#[test]
fn the_pattern_starts_over_after_its_period() {
    assert_eq!(io_total(1, 255), 32_385);
    assert_eq!(io_total(1, 256), 32_385);
    assert_eq!(io_total(1, 257), 32_386);
    assert_eq!(io_total(2, 510), 129_540);
}
