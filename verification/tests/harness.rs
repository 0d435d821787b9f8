use dio_harness::device::SectorDevice;
use dio_harness::harness::{
    after_open, run_unit_schedule, test_multithread_sync, test_read_write, AggregateOutcome,
    OpenDecision, ROUNDS_PER_UNIT, UNIT_COUNT,
};
use dio_harness::payload::{constant_payload, payloads_equal, random_payload};
use dio_harness::sector::{transfer_allowed, unit_offset, SECTOR_SIZE};

#[test]
fn sector_constants() {
    assert_eq!(SECTOR_SIZE, 512);
    assert_eq!(UNIT_COUNT, 4);
    assert_eq!(ROUNDS_PER_UNIT, 100);
}

#[test]
fn unit_offsets_are_disjoint_sectors() {
    assert_eq!(unit_offset(0), 0);
    assert_eq!(unit_offset(1), 512);
    assert_eq!(unit_offset(2), 1024);
    assert_eq!(unit_offset(3), 1536);
}

#[test]
fn transfer_gate_accepts_whole_sectors_only() {
    assert!(transfer_allowed(0, 512));
    assert!(transfer_allowed(1024, 512));
    assert!(transfer_allowed(512, 2048));
    assert!(!transfer_allowed(5, 512));
    assert!(!transfer_allowed(512, 100));
    assert!(!transfer_allowed(511, 511));
}

#[test]
fn constant_sector_round_trip() {
    // One sector of 0xAB written at offset 0 reads back as 512 bytes of 0xAB.
    let mut dev = SectorDevice::new(4);
    let written = constant_payload(0xAB, 512);
    dev.write_at(0, &written);
    let back = dev.read_at(0, 512);
    assert_eq!(back.len(), 512);
    assert!(back.iter().all(|&b| b == 0xAB));
    assert!(payloads_equal(&written, &back));
}

#[test]
fn random_round_trip_at_aligned_offset() {
    let mut dev = SectorDevice::new(8);
    let written = random_payload(512);
    dev.write_at(1536, &written);
    let back = dev.read_at(1536, 512);
    assert!(payloads_equal(&written, &back));
}

#[test]
fn write_elsewhere_leaves_sector_untouched() {
    let mut dev = SectorDevice::new(4);
    let first = constant_payload(0x11, 512);
    dev.write_at(0, &first);
    let second = constant_payload(0x22, 512);
    dev.write_at(512, &second);
    let back = dev.read_at(0, 512);
    assert!(payloads_equal(&first, &back));
    let other = dev.read_at(512, 512);
    assert!(payloads_equal(&second, &other));
}

#[test]
fn fresh_device_reads_zero() {
    let dev = SectorDevice::new(2);
    assert_eq!(dev.len(), 1024);
    let back = dev.read_at(512, 512);
    assert!(back.iter().all(|&b| b == 0));
}

#[test]
fn single_unit_scenario_passes() {
    let mut dev = SectorDevice::new(1);
    assert!(test_read_write(&mut dev));
}

#[test]
fn concurrent_scenario_passes() {
    let mut dev = SectorDevice::new(4);
    assert!(test_multithread_sync(&mut dev));
}

#[test]
fn unit_schedule_records_every_round() {
    let mut dev = SectorDevice::new(4);
    let outcome = run_unit_schedule(&mut dev);
    assert_eq!(outcome.count(), (UNIT_COUNT * ROUNDS_PER_UNIT) as u64);
    assert!(outcome.all_passed());
}

#[test]
fn aggregate_passes_only_without_mismatch() {
    let mut all_good = AggregateOutcome::new();
    assert!(all_good.all_passed());
    assert_eq!(all_good.count(), 0);
    for _ in 0..400 {
        all_good.record(true);
    }
    assert!(all_good.all_passed());
    assert_eq!(all_good.count(), 400);

    let mut one_bad = AggregateOutcome::new();
    for i in 0..400u32 {
        one_bad.record(i != 17);
    }
    assert!(!one_bad.all_passed());
    assert_eq!(one_bad.count(), 400);

    let mut late_bad = AggregateOutcome::new();
    for _ in 0..399 {
        late_bad.record(true);
    }
    late_bad.record(false);
    assert!(!late_bad.all_passed());
}

#[test]
fn open_failure_short_circuits() {
    assert_eq!(after_open(-1), OpenDecision::AbortNoHandle);
    assert_eq!(after_open(i32::MIN), OpenDecision::AbortNoHandle);
    assert_eq!(after_open(0), OpenDecision::RunScenarios { fd: 0 });
    assert_eq!(after_open(7), OpenDecision::RunScenarios { fd: 7 });
}

#[test]
fn random_payload_has_requested_length() {
    assert_eq!(random_payload(512).len(), 512);
    assert_eq!(random_payload(0).len(), 0);
}

#[test]
fn payload_comparison_is_by_value() {
    let a = constant_payload(0x5C, 512);
    let b = constant_payload(0x5C, 512);
    assert!(payloads_equal(&a, &b));
    let c = constant_payload(0x5D, 512);
    assert!(!payloads_equal(&a, &c));
    let short = constant_payload(0x5C, 511);
    assert!(!payloads_equal(&a, &short));
}
