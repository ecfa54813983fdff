//! The sampler's decision logic: turning one tick's raw readings into
//! the next snapshot.
//!
//! The embedding program queries each metric source independently and
//! hands the plain results over; this module decides what the next
//! snapshot holds.  A source that failed transiently keeps its previous
//! section, a source the platform cannot provide is marked unavailable,
//! and when the provider cannot be reached at all the whole previous
//! snapshot is retained and the failure is reported exactly once.

use vstd::prelude::*;

use crate::snapshot::{
    spec_clamp_load, spec_mount_from, spec_pct_of, sys_wf, BatteryData, CPUData, CPULoad,
    DiskData, MountInfo, NetIfInfo, NetInterface, NetworkData, RAMData, SystemData,
};

verus! {

/// The outcome of querying one metric source on one tick.
#[derive(Clone, Debug)]
pub enum SourceResult<T> {
    /// The source answered.
    Data(T),
    /// The platform cannot provide this source; the section is shown as
    /// unavailable.
    Unavailable,
    /// The source failed transiently; the previous section is retained.
    Failed,
}

/// One tick's raw readings, one result per metric source.
#[derive(Clone, Debug)]
pub struct RawSample {
    /// Per-core load shares, in hundredths of a percent.
    pub cpu: SourceResult<Vec<CPULoad>>,
    /// Total and free memory, in bytes.
    pub ram: SourceResult<(u64, u64)>,
    /// Total and available bytes of each mounted filesystem.
    pub disk: SourceResult<Vec<(u64, u64)>>,
    /// One entry per network interface.
    pub network: SourceResult<Vec<NetInterface>>,
    /// Battery charge in hundredths of a percent, and remaining seconds.
    pub battery: SourceResult<(u32, u64)>,
    /// Seconds since boot.
    pub uptime: SourceResult<u64>,
}

/// What the next snapshot's CPU section shows: fresh data (clamped to
/// the scale) when the source answered, the previous section otherwise.
pub open spec fn spec_merged_cpu(prev: SystemData, raw: RawSample) -> Seq<CPULoad> {
    match raw.cpu {
        SourceResult::Data(v) => v@.map_values(|l: CPULoad| spec_clamp_load(l)),
        _ => prev.cpu@,
    }
}

/// What the next snapshot's memory section is: a reconciled reading of
/// the fresh counters when the source answered, the previous section
/// otherwise.
pub open spec fn spec_merged_ram(prev: SystemData, raw: RawSample) -> RAMData {
    match raw.ram {
        SourceResult::Data((total, free)) => {
            let f: nat = if free <= total {
                free as nat
            } else {
                total as nat
            };
            RAMData {
                total,
                used: (total - f) as u64,
                free: f as u64,
                percentage: spec_pct_of((total - f) as nat, total as nat) as u32,
            }
        },
        _ => prev.ram,
    }
}

/// What the next snapshot's disk section shows: fresh mounts when the
/// source answered, an unavailable marker when the platform cannot
/// provide it, the previous section on a transient failure.
pub open spec fn spec_merged_disk(prev: SystemData, raw: RawSample) -> Option<Seq<MountInfo>> {
    match raw.disk {
        SourceResult::Data(v) => Some(v@.map_values(|m: (u64, u64)| spec_mount_from(m))),
        SourceResult::Unavailable => None,
        SourceResult::Failed => match prev.disk {
            Some(d) => Some(d@),
            None => None,
        },
    }
}

/// What the next snapshot's network section shows, by the same rule as
/// the disk section.
pub open spec fn spec_merged_network(prev: SystemData, raw: RawSample) -> Option<Seq<NetIfInfo>> {
    match raw.network {
        SourceResult::Data(v) => Some(v@.map_values(|x: NetInterface| x@)),
        SourceResult::Unavailable => None,
        SourceResult::Failed => match prev.network {
            Some(n) => Some(n@),
            None => None,
        },
    }
}

/// What the next snapshot's battery section shows, by the same rule as
/// the disk section, with the charge clamped to the scale.
pub open spec fn spec_merged_battery(prev: SystemData, raw: RawSample) -> Option<BatteryData> {
    match raw.battery {
        SourceResult::Data((p, secs)) => Some(
            BatteryData {
                percentage: if p > 10000 {
                    10000u32
                } else {
                    p
                },
                remaining_secs: secs,
            },
        ),
        SourceResult::Unavailable => None,
        SourceResult::Failed => prev.battery,
    }
}

/// What the next snapshot's uptime is: the fresh reading when the source
/// answered, the previous one otherwise.
pub open spec fn spec_merged_uptime(prev: SystemData, raw: RawSample) -> u64 {
    match raw.uptime {
        SourceResult::Data(u) => u,
        _ => prev.uptime,
    }
}

/// All six section clauses of a merged snapshot, at the level of the
/// sections' contents.
pub open spec fn spec_merged(prev: SystemData, raw: RawSample, next: SystemData) -> bool {
    &&& next.cpu@ == spec_merged_cpu(prev, raw)
    &&& next.ram == spec_merged_ram(prev, raw)
    &&& (match next.disk {
        Some(d) => spec_merged_disk(prev, raw) == Some(d@),
        None => spec_merged_disk(prev, raw) is None,
    })
    &&& (match next.network {
        Some(n) => spec_merged_network(prev, raw) == Some(n@),
        None => spec_merged_network(prev, raw) is None,
    })
    &&& next.battery == spec_merged_battery(prev, raw)
    &&& next.uptime == spec_merged_uptime(prev, raw)
}

/// Builds the next snapshot from the previous one and one tick's raw
/// readings.  Each source degrades only its own section: fresh data
/// replaces it, a transient failure retains the previous section, and an
/// unsupported source leaves an explicit unavailable marker.
pub fn merge_sample(prev: SystemData, raw: RawSample) -> (next: SystemData)
    requires
        sys_wf(prev),
    ensures
        sys_wf(next),
        spec_merged(prev, raw, next),
{
    let SystemData {
        cpu: prev_cpu,
        ram: prev_ram,
        disk: prev_disk,
        network: prev_network,
        battery: prev_battery,
        uptime: prev_uptime,
    } = prev;
    let RawSample { cpu, ram, disk, network, battery, uptime } = raw;
    let cpu_section: CPUData = match cpu {
        SourceResult::Data(v) => CPUData::from_loads(&v),
        _ => prev_cpu,
    };
    let ram_section: RAMData = match ram {
        SourceResult::Data((total, free)) => RAMData::from_counters(total, free),
        _ => prev_ram,
    };
    let disk_section: Option<DiskData> = match disk {
        SourceResult::Data(v) => Some(DiskData::from_mounts(&v)),
        SourceResult::Unavailable => None,
        SourceResult::Failed => prev_disk,
    };
    let network_section: Option<NetworkData> = match network {
        SourceResult::Data(v) => Some(NetworkData::from_interfaces(v)),
        SourceResult::Unavailable => None,
        SourceResult::Failed => prev_network,
    };
    let battery_section: Option<BatteryData> = match battery {
        SourceResult::Data((p, secs)) => Some(BatteryData::new(p, secs)),
        SourceResult::Unavailable => None,
        SourceResult::Failed => prev_battery,
    };
    let uptime_val: u64 = match uptime {
        SourceResult::Data(u) => u,
        _ => prev_uptime,
    };
    SystemData {
        cpu: cpu_section,
        ram: ram_section,
        disk: disk_section,
        network: network_section,
        battery: battery_section,
        uptime: uptime_val,
    }
}

/// What the sampler remembers between ticks: whether a total fetch
/// failure has already been reported.
pub struct SamplerState {
    pub failure_reported: bool,
}

impl SamplerState {
    pub fn new() -> (s: SamplerState)
        ensures
            !s.failure_reported,
    {
        SamplerState { failure_reported: false }
    }
}

/// One sampler tick.  With readings in hand the merged snapshot replaces
/// the previous one; when the provider could not be reached at all
/// (`sample` is `None`) the whole previous snapshot is retained
/// unchanged, and the failure is reported exactly once until a sample
/// succeeds again.  Returns the next snapshot and whether to report a
/// total failure now.
pub fn sampler_step(state: &mut SamplerState, prev: SystemData, sample: Option<RawSample>) -> (r: (
    SystemData,
    bool,
))
    requires
        sys_wf(prev),
    ensures
        sys_wf(r.0),
        match sample {
            Some(raw) => {
                &&& spec_merged(prev, raw, r.0)
                &&& !final(state).failure_reported
                &&& r.1 == false
            },
            None => {
                &&& r.0 == prev
                &&& final(state).failure_reported
                &&& r.1 == !old(state).failure_reported
            },
        },
{
    match sample {
        Some(raw) => {
            state.failure_reported = false;
            (merge_sample(prev, raw), false)
        },
        None => {
            let report = !state.failure_reported;
            state.failure_reported = true;
            (prev, report)
        },
    }
}

} // verus!
