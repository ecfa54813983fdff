use rctop::sampler::{merge_sample, sampler_step, RawSample, SamplerState, SourceResult};
use rctop::snapshot::{CPULoad, SystemData};

fn full_sample() -> RawSample {
    RawSample {
        cpu: SourceResult::Data(vec![CPULoad {
            user: 500,
            nice: 0,
            system: 500,
            interrupt: 0,
            idle: 9000,
        }]),
        ram: SourceResult::Data((1000, 750)),
        disk: SourceResult::Data(vec![(1000, 750)]),
        network: SourceResult::Data(vec![]),
        battery: SourceResult::Data((9900, 7200)),
        uptime: SourceResult::Data(42),
    }
}

#[test]
fn fresh_sample_fills_every_section() {
    let next = merge_sample(SystemData::empty(), full_sample());
    assert_eq!(next.cpu.count, 1);
    assert_eq!(next.cpu.load[0].idle, 9000);
    assert_eq!(next.ram.used, 250);
    assert_eq!(next.ram.percentage, 2500);
    let d = next.disk.as_ref().unwrap();
    assert_eq!(d.percentage, vec![2500]);
    assert!(next.network.is_some());
    assert_eq!(next.battery.unwrap().percentage, 9900);
    assert_eq!(next.uptime, 42);
}

#[test]
fn transient_failure_retains_the_previous_section() {
    let prev = merge_sample(SystemData::empty(), full_sample());
    let next = merge_sample(
        prev.clone(),
        RawSample {
            cpu: SourceResult::Failed,
            ram: SourceResult::Failed,
            disk: SourceResult::Failed,
            network: SourceResult::Failed,
            battery: SourceResult::Failed,
            uptime: SourceResult::Failed,
        },
    );
    assert_eq!(next.cpu.load, prev.cpu.load);
    assert_eq!(next.ram, prev.ram);
    assert_eq!(next.disk, prev.disk);
    assert_eq!(next.battery, prev.battery);
    assert_eq!(next.uptime, prev.uptime);
}

#[test]
fn unavailable_source_leaves_a_marker() {
    let prev = merge_sample(SystemData::empty(), full_sample());
    let mut raw = full_sample();
    raw.disk = SourceResult::Unavailable;
    raw.battery = SourceResult::Unavailable;
    let next = merge_sample(prev, raw);
    assert!(next.disk.is_none());
    assert!(next.battery.is_none());
    assert!(next.network.is_some());
}

#[test]
fn one_source_failing_does_not_abort_the_others() {
    let prev = merge_sample(SystemData::empty(), full_sample());
    let mut raw = full_sample();
    raw.ram = SourceResult::Data((2000, 500));
    raw.cpu = SourceResult::Failed;
    let next = merge_sample(prev.clone(), raw);
    // Memory is fresh even though the CPU read failed.
    assert_eq!(next.ram.total, 2000);
    assert_eq!(next.ram.used, 1500);
    assert_eq!(next.cpu.load, prev.cpu.load);
}

#[test]
fn total_failure_retains_the_snapshot_and_reports_once() {
    let mut state = SamplerState::new();
    let prev = merge_sample(SystemData::empty(), full_sample());

    let (s1, report1) = sampler_step(&mut state, prev.clone(), None);
    assert_eq!(s1, prev);
    assert!(report1, "the first total failure is reported");

    let (s2, report2) = sampler_step(&mut state, s1, None);
    assert_eq!(s2, prev);
    assert!(!report2, "repeated failures are not reported again");

    let (s3, report3) = sampler_step(&mut state, s2, Some(full_sample()));
    assert!(!report3);
    assert_eq!(s3.uptime, 42);

    // After a success, a new total failure is reported again.
    let (_s4, report4) = sampler_step(&mut state, s3, None);
    assert!(report4);
}
