//! The snapshot data model: what one fully-formed reading of the host
//! looks like, with its accounting invariants.
//!
//! All percentages are carried as hundredths of a percent (`0 ..= 10000`),
//! sizes in bytes, and the uptime in whole seconds.

use vstd::prelude::*;

verus! {

/// The load of one logical core over the sampling window, each share in
/// hundredths of a percent.  The busy share of a core is the complement
/// of `idle`.
#[derive(Clone, Copy, PartialEq, Eq, Structural, Debug)]
pub struct CPULoad {
    pub user: u32,
    pub nice: u32,
    pub system: u32,
    pub interrupt: u32,
    pub idle: u32,
}

/// Every share of a core's load lies on the percentage scale.
pub open spec fn core_load_wf(c: CPULoad) -> bool {
    c.user <= 10000 && c.nice <= 10000 && c.system <= 10000 && c.interrupt <= 10000 && c.idle
        <= 10000
}

/// The busy share of one core: the complement of its idle share.
pub open spec fn spec_core_busy(c: CPULoad) -> nat {
    if c.idle > 10000 {
        0
    } else {
        (10000 - c.idle) as nat
    }
}

/// Per-core CPU load of the machine.
#[derive(Clone, PartialEq, Debug)]
pub struct CPUData {
    pub count: usize,
    pub load: Vec<CPULoad>,
}

impl View for CPUData {
    type V = Seq<CPULoad>;

    open spec fn view(&self) -> Seq<CPULoad> {
        self.load@
    }
}

pub open spec fn cpu_wf(c: CPUData) -> bool {
    &&& c.count == c.load@.len()
    &&& forall|i: int| 0 <= i < c.load@.len() ==> core_load_wf(#[trigger] c.load@[i])
}

/// Memory usage in bytes.  `percentage` is the used share of the total.
#[derive(Clone, Copy, PartialEq, Eq, Structural, Debug)]
pub struct RAMData {
    pub total: u64,
    pub used: u64,
    pub free: u64,
    pub percentage: u32,
}

/// The used share of a whole, in hundredths of a percent, rounded down;
/// zero when the whole is zero.
pub open spec fn spec_pct_of(part: nat, whole: nat) -> nat {
    if whole == 0 {
        0
    } else {
        part * 10000 / whole
    }
}

/// Byte accounting of a memory reading reconciles, and its percentage is
/// the used share of the total.
pub open spec fn ram_wf(r: RAMData) -> bool {
    &&& r.used + r.free == r.total
    &&& r.percentage <= 10000
    &&& r.percentage == spec_pct_of(r.used as nat, r.total as nat)
}

/// What the renderer knows of one mounted filesystem.
pub struct MountInfo {
    pub total: nat,
    pub used: nat,
    pub free: nat,
    pub percentage: nat,
}

pub open spec fn mount_wf(m: MountInfo) -> bool {
    &&& m.used + m.free == m.total
    &&& m.percentage <= 10000
    &&& m.percentage == spec_pct_of(m.used, m.total)
}

/// Disk usage, one entry per mounted filesystem, kept in parallel
/// columns.
#[derive(Clone, PartialEq, Debug)]
pub struct DiskData {
    pub count: usize,
    pub total: Vec<u64>,
    pub used: Vec<u64>,
    pub free: Vec<u64>,
    pub percentage: Vec<u32>,
}

impl View for DiskData {
    type V = Seq<MountInfo>;

    open spec fn view(&self) -> Seq<MountInfo> {
        Seq::new(
            self.total@.len(),
            |i: int|
                MountInfo {
                    total: self.total@[i] as nat,
                    used: if i < self.used@.len() {
                        self.used@[i] as nat
                    } else {
                        0
                    },
                    free: if i < self.free@.len() {
                        self.free@[i] as nat
                    } else {
                        0
                    },
                    percentage: if i < self.percentage@.len() {
                        self.percentage@[i] as nat
                    } else {
                        0
                    },
                },
        )
    }
}

pub open spec fn disk_wf(d: DiskData) -> bool {
    &&& d.count == d.total@.len()
    &&& d.used@.len() == d.total@.len()
    &&& d.free@.len() == d.total@.len()
    &&& d.percentage@.len() == d.total@.len()
    &&& forall|i: int| 0 <= i < d@.len() ==> mount_wf(#[trigger] d@[i])
}

/// One network interface with its counters.
#[derive(Clone, PartialEq, Debug)]
pub struct NetInterface {
    pub name: String,
    pub adresses: Vec<String>,
    pub rx: u64,
    pub tx: u64,
}

/// The spec-level value of one network interface.
pub struct NetIfInfo {
    pub name: Seq<char>,
    pub adresses: Seq<Seq<char>>,
    pub rx: u64,
    pub tx: u64,
}

impl View for NetInterface {
    type V = NetIfInfo;

    open spec fn view(&self) -> NetIfInfo {
        NetIfInfo {
            name: self.name@,
            adresses: self.adresses@.map_values(|a: String| a@),
            rx: self.rx,
            tx: self.tx,
        }
    }
}

/// Network interfaces, kept in parallel columns.
#[derive(Clone, PartialEq, Debug)]
pub struct NetworkData {
    pub count: usize,
    pub names: Vec<String>,
    pub adresses: Vec<Vec<String>>,
    pub rx: Vec<u64>,
    pub tx: Vec<u64>,
}

impl View for NetworkData {
    type V = Seq<NetIfInfo>;

    open spec fn view(&self) -> Seq<NetIfInfo> {
        Seq::new(
            self.names@.len(),
            |i: int|
                NetIfInfo {
                    name: self.names@[i]@,
                    adresses: if i < self.adresses@.len() {
                        self.adresses@[i]@.map_values(|a: String| a@)
                    } else {
                        Seq::empty()
                    },
                    rx: if i < self.rx@.len() {
                        self.rx@[i]
                    } else {
                        0
                    },
                    tx: if i < self.tx@.len() {
                        self.tx@[i]
                    } else {
                        0
                    },
                },
        )
    }
}

pub open spec fn net_wf(n: NetworkData) -> bool {
    &&& n.count == n.names@.len()
    &&& n.adresses@.len() == n.names@.len()
    &&& n.rx@.len() == n.names@.len()
    &&& n.tx@.len() == n.names@.len()
}

/// Battery charge and estimated remaining time, shown in the footer.
#[derive(Clone, Copy, PartialEq, Eq, Structural, Debug)]
pub struct BatteryData {
    pub percentage: u32,
    pub remaining_secs: u64,
}

pub open spec fn battery_wf(b: BatteryData) -> bool {
    b.percentage <= 10000
}

/// One fully-formed snapshot of the host, replaced wholesale on every
/// successful sample and never mutated in place.  A section that the
/// platform cannot provide is `None` and rendered as a placeholder.
#[derive(Clone, PartialEq, Debug)]
pub struct SystemData {
    pub cpu: CPUData,
    pub ram: RAMData,
    pub disk: Option<DiskData>,
    pub network: Option<NetworkData>,
    pub battery: Option<BatteryData>,
    pub uptime: u64,
}

/// Every snapshot the library builds satisfies this: percentages lie on
/// the scale and byte accounting reconciles in memory and on every
/// mount.
pub open spec fn sys_wf(s: SystemData) -> bool {
    &&& cpu_wf(s.cpu)
    &&& ram_wf(s.ram)
    &&& match s.disk {
        Some(d) => disk_wf(d),
        None => true,
    }
    &&& match s.network {
        Some(n) => net_wf(n),
        None => true,
    }
    &&& match s.battery {
        Some(b) => battery_wf(b),
        None => true,
    }
}

/// Memory accounting always reconciles and the memory percentage always
/// lies on the scale, for every well-formed snapshot.
pub proof fn lemma_memory_accounting(s: SystemData)
    requires
        sys_wf(s),
    ensures
        s.ram.used + s.ram.free == s.ram.total,
        0 <= s.ram.percentage <= 10000,
{
}

/// The used share never exceeds the scale when the part is at most the
/// whole.
pub proof fn lemma_pct_bound(part: nat, whole: nat)
    requires
        part <= whole,
    ensures
        spec_pct_of(part, whole) <= 10000,
{
    if whole > 0 {
        assert(part * 10000 <= whole * 10000) by (nonlinear_arith)
            requires
                part <= whole,
        ;
        vstd::arithmetic::div_mod::lemma_div_is_ordered(
            (part * 10000) as int,
            (whole * 10000) as int,
            whole as int,
        );
        vstd::arithmetic::div_mod::lemma_div_multiples_vanish(10000, whole as int);
    }
}

/// The used share of a whole, in hundredths of a percent.
pub fn pct_of(part: u64, whole: u64) -> (p: u32)
    requires
        part <= whole,
    ensures
        p == spec_pct_of(part as nat, whole as nat),
        p <= 10000,
{
    if whole == 0 {
        0
    } else {
        proof {
            lemma_pct_bound(part as nat, whole as nat);
        }
        ((part as u128) * 10000 / (whole as u128)) as u32
    }
}

impl RAMData {
    /// Builds a reconciled memory reading from the raw total and free
    /// byte counts, clamping `free` to the total so that the accounting
    /// always balances, and computing the used share of the total.
    pub fn from_counters(total: u64, free: u64) -> (r: RAMData)
        ensures
            ram_wf(r),
            r.total == total,
            r.free == if free <= total {
                free
            } else {
                total
            },
            r.used == total - r.free,
    {
        let f = if free <= total {
            free
        } else {
            total
        };
        let used = total - f;
        let percentage = pct_of(used, total);
        RAMData { total, used, free: f, percentage }
    }

    /// An all-zero memory reading, used before the first sample arrives.
    pub fn empty() -> (r: RAMData)
        ensures
            ram_wf(r),
            r.total == 0 && r.used == 0 && r.free == 0 && r.percentage == 0,
    {
        RAMData { total: 0, used: 0, free: 0, percentage: 0 }
    }
}

/// A core load with every share clamped to the percentage scale.
pub open spec fn spec_clamp_load(c: CPULoad) -> CPULoad {
    CPULoad {
        user: if c.user > 10000 {
            10000
        } else {
            c.user
        },
        nice: if c.nice > 10000 {
            10000
        } else {
            c.nice
        },
        system: if c.system > 10000 {
            10000
        } else {
            c.system
        },
        interrupt: if c.interrupt > 10000 {
            10000
        } else {
            c.interrupt
        },
        idle: if c.idle > 10000 {
            10000
        } else {
            c.idle
        },
    }
}

fn clamp_share(v: u32) -> (r: u32)
    ensures
        r == if v > 10000 {
            10000u32
        } else {
            v
        },
{
    if v > 10000 {
        10000
    } else {
        v
    }
}

impl CPUData {
    /// Builds the CPU section from raw per-core loads, clamping every
    /// share to the percentage scale.
    pub fn from_loads(loads: &Vec<CPULoad>) -> (c: CPUData)
        ensures
            cpu_wf(c),
            c@ == loads@.map_values(|l: CPULoad| spec_clamp_load(l)),
            c.count == loads@.len(),
    {
        let mut out: Vec<CPULoad> = Vec::new();
        let mut i: usize = 0;
        while i < loads.len()
            invariant
                i <= loads@.len(),
                out@.len() == i,
                forall|j: int| 0 <= j < i ==> out@[j] == spec_clamp_load(#[trigger] loads@[j]),
            decreases loads@.len() - i,
        {
            let l = loads[i];
            out.push(
                CPULoad {
                    user: clamp_share(l.user),
                    nice: clamp_share(l.nice),
                    system: clamp_share(l.system),
                    interrupt: clamp_share(l.interrupt),
                    idle: clamp_share(l.idle),
                },
            );
            i = i + 1;
        }
        proof {
            assert(out@ =~= loads@.map_values(|l: CPULoad| spec_clamp_load(l)));
        }
        CPUData { count: out.len(), load: out }
    }

    /// A CPU section with no cores, used before the first sample
    /// arrives.
    pub fn empty() -> (c: CPUData)
        ensures
            cpu_wf(c),
            c@ == Seq::<CPULoad>::empty(),
            c.count == 0,
    {
        let c = CPUData { count: 0, load: Vec::new() };
        c
    }
}

/// The spec-level mount built from one raw `(total, avail)` reading:
/// the available bytes are clamped to the total, the rest counts as
/// used.
pub open spec fn spec_mount_from(m: (u64, u64)) -> MountInfo {
    let free: nat = if m.1 <= m.0 {
        m.1 as nat
    } else {
        m.0 as nat
    };
    MountInfo {
        total: m.0 as nat,
        used: (m.0 as nat - free) as nat,
        free,
        percentage: spec_pct_of((m.0 as nat - free) as nat, m.0 as nat),
    }
}

impl DiskData {
    /// Builds the disk section from raw `(total, avail)` byte counts,
    /// one pair per mounted filesystem.
    pub fn from_mounts(mounts: &Vec<(u64, u64)>) -> (d: DiskData)
        ensures
            disk_wf(d),
            d@ == mounts@.map_values(|m: (u64, u64)| spec_mount_from(m)),
            d.count == mounts@.len(),
    {
        let mut total: Vec<u64> = Vec::new();
        let mut used: Vec<u64> = Vec::new();
        let mut free: Vec<u64> = Vec::new();
        let mut percentage: Vec<u32> = Vec::new();
        let mut i: usize = 0;
        while i < mounts.len()
            invariant
                i <= mounts@.len(),
                total@.len() == i && used@.len() == i && free@.len() == i && percentage@.len()
                    == i,
                forall|j: int|
                    0 <= j < i ==> {
                        let m = spec_mount_from(#[trigger] mounts@[j]);
                        total@[j] == m.total && used@[j] == m.used && free@[j] == m.free
                            && percentage@[j] == m.percentage
                    },
            decreases mounts@.len() - i,
        {
            let (t, avail) = mounts[i];
            let f = if avail <= t {
                avail
            } else {
                t
            };
            let u = t - f;
            total.push(t);
            used.push(u);
            free.push(f);
            percentage.push(pct_of(u, t));
            i = i + 1;
        }
        let d = DiskData { count: total.len(), total, used, free, percentage };
        proof {
            assert(d@ =~= mounts@.map_values(|m: (u64, u64)| spec_mount_from(m)));
            assert forall|j: int| 0 <= j < d@.len() implies mount_wf(#[trigger] d@[j]) by {
                let m = mounts@[j];
                let free_j: nat = if m.1 <= m.0 {
                    m.1 as nat
                } else {
                    m.0 as nat
                };
                lemma_pct_bound((m.0 as nat - free_j) as nat, m.0 as nat);
            }
        }
        d
    }
}

impl NetworkData {
    /// Builds the network section from one struct per interface,
    /// splitting them into the parallel columns the renderer reads.
    pub fn from_interfaces(list: Vec<NetInterface>) -> (n: NetworkData)
        ensures
            net_wf(n),
            n@ == list@.map_values(|x: NetInterface| x@),
            n.count == list@.len(),
    {
        let ghost orig = list@;
        let mut rest = list;
        let mut names: Vec<String> = Vec::new();
        let mut adresses: Vec<Vec<String>> = Vec::new();
        let mut rx: Vec<u64> = Vec::new();
        let mut tx: Vec<u64> = Vec::new();
        let ghost mut i: int = 0;
        while rest.len() > 0
            invariant
                0 <= i,
                i + rest@.len() == orig.len(),
                rest@ == orig.skip(i),
                names@.len() == i && adresses@.len() == i && rx@.len() == i && tx@.len() == i,
                forall|j: int|
                    0 <= j < i ==> {
                        let v = #[trigger] orig[j]@;
                        names@[j]@ == v.name && adresses@[j]@.map_values(|a: String| a@)
                            == v.adresses && rx@[j] == v.rx && tx@[j] == v.tx
                    },
            decreases rest@.len(),
        {
            let itf = rest.remove(0);
            proof {
                assert(itf == orig[i]);
                assert(rest@ =~= orig.skip(i + 1));
            }
            let NetInterface { name, adresses: addrs, rx: r, tx: t } = itf;
            names.push(name);
            adresses.push(addrs);
            rx.push(r);
            tx.push(t);
            proof {
                i = i + 1;
            }
        }
        let n = NetworkData { count: names.len(), names, adresses, rx, tx };
        proof {
            assert(n@ =~= orig.map_values(|x: NetInterface| x@));
        }
        n
    }
}

impl BatteryData {
    /// Builds a battery reading, clamping the charge to the percentage
    /// scale.
    pub fn new(percentage: u32, remaining_secs: u64) -> (b: BatteryData)
        ensures
            battery_wf(b),
            b.percentage == if percentage > 10000 {
                10000u32
            } else {
                percentage
            },
            b.remaining_secs == remaining_secs,
    {
        BatteryData { percentage: clamp_share(percentage), remaining_secs }
    }
}

impl SystemData {
    /// The snapshot shown before the first sample has been published:
    /// no cores, zero memory, and every optional section unavailable.
    pub fn empty() -> (s: SystemData)
        ensures
            sys_wf(s),
            s.cpu@ == Seq::<CPULoad>::empty(),
            s.ram == (RAMData { total: 0, used: 0, free: 0, percentage: 0 }),
            s.disk is None && s.network is None && s.battery is None,
            s.uptime == 0,
    {
        SystemData {
            cpu: CPUData::empty(),
            ram: RAMData::empty(),
            disk: None,
            network: None,
            battery: None,
            uptime: 0,
        }
    }
}

} // verus!
