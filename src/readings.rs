//! Reductions of raw host readings into the figures a snapshot reports.
use vstd::prelude::*;
use vstd::string::StringExecFns;

verus! {

/// Bytes in one megabyte.
pub const BYTES_PER_MB: u64 = 1024 * 1024;

/// Bytes in one gigabyte.
pub const BYTES_PER_GB: u64 = 1024 * 1024 * 1024;

/// A usage figure is kept in hundredths of a percent: this value is 100%.
pub const FULL_USAGE: u64 = 10000;

/// `x`, or the largest `u64` where `x` does not fit.
pub open spec fn capped(x: nat) -> u64 {
    if x > u64::MAX {
        u64::MAX
    } else {
        x as u64
    }
}

/// Share of `part` in `whole`, in hundredths of a percent, at most 100%;
/// zero for an empty whole.
pub open spec fn usage_share(part: nat, whole: nat) -> u64 {
    if whole == 0 {
        0
    } else if part >= whole {
        FULL_USAGE
    } else {
        ((part * FULL_USAGE) as nat / whole) as u64
    }
}

/// Sum of `f` over the items of `s`.
pub open spec fn total_of<T>(s: Seq<T>, f: spec_fn(T) -> u64) -> nat
    decreases s.len(),
{
    if s.len() == 0 {
        0
    } else {
        total_of(s.drop_last(), f) + f(s.last()) as nat
    }
}

/// `usage_share` on machine integers.
pub fn usage_of(part: u64, whole: u64) -> (r: u64)
    ensures
        r == usage_share(part as nat, whole as nat),
        r <= FULL_USAGE,
        whole == 0 ==> r == 0,
{
    if whole == 0 {
        0
    } else if part >= whole {
        FULL_USAGE
    } else {
        let p = part as u128;
        assert(p * 10000 <= 0xffff_ffff_ffff_ffffu128 * 10000) by (nonlinear_arith)
            requires p <= 0xffff_ffff_ffff_ffffu128;
        assert((p * 10000) / (whole as int) <= 10000) by (nonlinear_arith)
            requires p < whole, whole > 0;
        ((p * (FULL_USAGE as u128)) / (whole as u128)) as u64
    }
}

/// One logical processor: its model label and its load in hundredths of a
/// percent.
#[derive(Debug)]
pub struct CpuReading {
    pub brand: String,
    pub usage: u64,
}

/// Processor figures of a snapshot.
#[derive(Debug)]
pub struct CpuStats {
    pub model: String,
    pub usage: u64,
}

/// A core's load as counted in the average: at most 100%.
pub open spec fn core_load(c: CpuReading) -> u64 {
    if c.usage > FULL_USAGE {
        FULL_USAGE
    } else {
        c.usage
    }
}

/// Average load over all cores, zero where there are none.
pub open spec fn average_load(cores: Seq<CpuReading>) -> u64 {
    if cores.len() == 0 {
        0
    } else {
        (total_of(cores, |c: CpuReading| core_load(c)) / cores.len()) as u64
    }
}

proof fn lemma_total_bounded<T>(s: Seq<T>, f: spec_fn(T) -> u64, bound: u64)
    requires
        forall|i: int| 0 <= i < s.len() ==> f(#[trigger] s[i]) <= bound,
    ensures
        total_of(s, f) <= s.len() * bound,
    decreases s.len(),
{
    if s.len() > 0 {
        assert forall|i: int| 0 <= i < s.drop_last().len() implies f(
            #[trigger] s.drop_last()[i],
        ) <= bound by {
            assert(s.drop_last()[i] == s[i]);
        }
        lemma_total_bounded(s.drop_last(), f, bound);
        assert(f(s.last()) <= bound);
        assert((s.len() - 1) * bound + bound == s.len() * bound) by (nonlinear_arith);
    }
}

/// The model label of the first core ("Unknown" without cores) and the
/// average load over all cores.
pub fn cpu_stats(cores: &Vec<CpuReading>) -> (r: CpuStats)
    ensures
        cores@.len() > 0 ==> r.model@ == cores@[0].brand@,
        cores@.len() == 0 ==> r.model@ == "Unknown"@,
        r.usage == average_load(cores@),
        r.usage <= FULL_USAGE,
{
    let ghost f = |c: CpuReading| core_load(c);
    let n = cores.len();
    if n == 0 {
        return CpuStats { model: String::from_str("Unknown"), usage: 0 };
    }
    let mut sum: u128 = 0;
    let mut i: usize = 0;
    while i < n
        invariant
            n == cores@.len(),
            i <= n,
            f == (|c: CpuReading| core_load(c)),
            sum == total_of(cores@.subrange(0, i as int), f),
            sum <= i * FULL_USAGE,
        decreases n - i,
    {
        let u = if cores[i].usage > FULL_USAGE {
            FULL_USAGE
        } else {
            cores[i].usage
        };
        proof {
            let s = cores@.subrange(0, i + 1);
            assert(s.drop_last() =~= cores@.subrange(0, i as int));
            assert(s.last() == cores@[i as int]);
            assert(total_of(s, f) == total_of(s.drop_last(), f) + f(s.last()) as nat);
            assert(f(s.last()) == u);
            assert(i * FULL_USAGE + FULL_USAGE == (i + 1) * FULL_USAGE) by (nonlinear_arith);
            assert((i + 1) * FULL_USAGE <= usize::MAX as nat * 10000) by (nonlinear_arith)
                requires i + 1 <= usize::MAX;
        }
        sum = sum + u as u128;
        i = i + 1;
    }
    proof {
        assert(cores@.subrange(0, n as int) =~= cores@);
        assert((sum as nat) / (n as nat) <= FULL_USAGE) by (nonlinear_arith)
            requires sum <= n * FULL_USAGE, n > 0;
    }
    let model = cores[0].brand.clone();
    CpuStats { model, usage: (sum / (n as u128)) as u64 }
}

/// Memory figures of a snapshot, in megabytes.
#[derive(Clone, Copy, Debug, PartialEq, Eq, Structural)]
pub struct MemoryStats {
    pub total_mb: u64,
    pub used_mb: u64,
    pub available_mb: u64,
    pub usage: u64,
}

/// Memory figures from byte counts: each in whole megabytes, and the share
/// of used in total megabytes.
pub open spec fn memory_of(total_bytes: u64, used_bytes: u64, available_bytes: u64) -> MemoryStats {
    let total_mb = total_bytes / BYTES_PER_MB;
    let used_mb = used_bytes / BYTES_PER_MB;
    MemoryStats {
        total_mb,
        used_mb,
        available_mb: available_bytes / BYTES_PER_MB,
        usage: usage_share(used_mb as nat, total_mb as nat),
    }
}

/// Computes `memory_of`.
pub fn memory_stats(total_bytes: u64, used_bytes: u64, available_bytes: u64) -> (r: MemoryStats)
    ensures
        r == memory_of(total_bytes, used_bytes, available_bytes),
        r.total_mb == total_bytes / BYTES_PER_MB,
        r.used_mb == used_bytes / BYTES_PER_MB,
        r.available_mb == available_bytes / BYTES_PER_MB,
        r.usage == usage_share(r.used_mb as nat, r.total_mb as nat),
        r.usage <= FULL_USAGE,
        r.total_mb == 0 ==> r.usage == 0,
{
    let total_mb = total_bytes / BYTES_PER_MB;
    let used_mb = used_bytes / BYTES_PER_MB;
    let available_mb = available_bytes / BYTES_PER_MB;
    MemoryStats { total_mb, used_mb, available_mb, usage: usage_of(used_mb, total_mb) }
}

/// Size and free space of one mounted volume, in bytes.
#[derive(Clone, Copy, Debug, PartialEq, Eq, Structural)]
pub struct VolumeSpace {
    pub total_bytes: u64,
    pub available_bytes: u64,
}

/// Disk figures of a snapshot, in gigabytes, over all volumes.
#[derive(Clone, Copy, Debug, PartialEq, Eq, Structural)]
pub struct DiskStats {
    pub total_gb: u64,
    pub used_gb: u64,
    pub free_gb: u64,
    pub usage: u64,
}

/// Size of a volume.
pub open spec fn volume_total(v: VolumeSpace) -> u64 {
    v.total_bytes
}

/// Free space of a volume.
pub open spec fn volume_available(v: VolumeSpace) -> u64 {
    v.available_bytes
}

/// Disk figures over all volumes: sizes and free space are summed (capped at
/// the largest `u64`), used space is their difference floored at zero, each
/// in whole gigabytes, and the usage is the share of used in total gigabytes.
pub open spec fn disk_of(volumes: Seq<VolumeSpace>) -> DiskStats {
    let total = capped(total_of(volumes, |v: VolumeSpace| volume_total(v)));
    let free = capped(total_of(volumes, |v: VolumeSpace| volume_available(v)));
    let used = if total >= free {
        (total - free) as u64
    } else {
        0u64
    };
    let total_gb = total / BYTES_PER_GB;
    let used_gb = used / BYTES_PER_GB;
    DiskStats {
        total_gb,
        used_gb,
        free_gb: free / BYTES_PER_GB,
        usage: usage_share(used_gb as nat, total_gb as nat),
    }
}

/// Computes `disk_of`.
pub fn disk_stats(volumes: &Vec<VolumeSpace>) -> (r: DiskStats)
    ensures
        r == disk_of(volumes@),
        r.used_gb <= r.total_gb,
        r.usage <= FULL_USAGE,
        r.total_gb == 0 ==> r.usage == 0,
{
    let ghost ft = |v: VolumeSpace| volume_total(v);
    let ghost fa = |v: VolumeSpace| volume_available(v);
    let mut total: u64 = 0;
    let mut free: u64 = 0;
    let mut i: usize = 0;
    while i < volumes.len()
        invariant
            i <= volumes@.len(),
            ft == (|v: VolumeSpace| volume_total(v)),
            fa == (|v: VolumeSpace| volume_available(v)),
            total == capped(total_of(volumes@.subrange(0, i as int), ft)),
            free == capped(total_of(volumes@.subrange(0, i as int), fa)),
        decreases volumes@.len() - i,
    {
        proof {
            let s = volumes@.subrange(0, i + 1);
            assert(s.drop_last() =~= volumes@.subrange(0, i as int));
            assert(s.last() == volumes@[i as int]);
            assert(total_of(s, ft) == total_of(s.drop_last(), ft) + ft(s.last()) as nat);
            assert(total_of(s, fa) == total_of(s.drop_last(), fa) + fa(s.last()) as nat);
            assert(ft(s.last()) == volumes@[i as int].total_bytes);
            assert(fa(s.last()) == volumes@[i as int].available_bytes);
        }
        total = total.saturating_add(volumes[i].total_bytes);
        free = free.saturating_add(volumes[i].available_bytes);
        i = i + 1;
    }
    assert(volumes@.subrange(0, i as int) =~= volumes@);
    let used = total.saturating_sub(free);
    let total_gb = total / BYTES_PER_GB;
    let used_gb = used / BYTES_PER_GB;
    let free_gb = free / BYTES_PER_GB;
    assert(used_gb <= total_gb) by (nonlinear_arith)
        requires used <= total, used_gb == used / BYTES_PER_GB, total_gb == total / BYTES_PER_GB;
    DiskStats { total_gb, used_gb, free_gb, usage: usage_of(used_gb, total_gb) }
}

} // verus!
