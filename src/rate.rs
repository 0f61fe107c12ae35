//! Network throughput from cumulative byte counters.
use vstd::prelude::*;
use crate::readings::{capped, total_of};

verus! {

/// Nanoseconds in one second.
pub const NANOS_PER_SEC: u64 = 1_000_000_000;

/// Bytes in one kilobyte.
pub const BYTES_PER_KB: u64 = 1024;

/// One reading of the cumulative network counters, summed over all
/// interfaces, with the monotonic time (in nanoseconds) it was taken at.
#[derive(Clone, Copy, Debug, PartialEq, Eq, Structural)]
pub struct NetSample {
    pub at_ns: u64,
    pub rx_bytes: u64,
    pub tx_bytes: u64,
}

/// Throughput in kilobytes per second, in each direction.
#[derive(Clone, Copy, Debug, PartialEq, Eq, Structural)]
pub struct NetRate {
    pub down_kbps: u64,
    pub up_kbps: u64,
}

/// Saturating subtraction on naturals: a counter that went backwards
/// counts as no traffic.
pub open spec fn counter_delta(prev: u64, cur: u64) -> nat {
    if cur >= prev {
        (cur - prev) as nat
    } else {
        0
    }
}

/// Floor of `delta` bytes over `elapsed_ns` nanoseconds, in KB/s, capped at
/// the largest `u64`.
pub open spec fn kb_per_sec(delta: nat, elapsed_ns: nat) -> u64
    recommends
        elapsed_ns > 0,
{
    let r = (delta * NANOS_PER_SEC) / (elapsed_ns * BYTES_PER_KB);
    if r > u64::MAX {
        u64::MAX
    } else {
        r as u64
    }
}

/// The rate reported for `cur`, given the baseline `last` (if any): zero
/// without a baseline or when no time has passed since it.
pub open spec fn rate_between(last: Option<NetSample>, cur: NetSample) -> NetRate {
    match last {
        None => NetRate { down_kbps: 0, up_kbps: 0 },
        Some(prev) => if cur.at_ns <= prev.at_ns {
            NetRate { down_kbps: 0, up_kbps: 0 }
        } else {
            let elapsed = (cur.at_ns - prev.at_ns) as nat;
            NetRate {
                down_kbps: kb_per_sec(counter_delta(prev.rx_bytes, cur.rx_bytes), elapsed),
                up_kbps: kb_per_sec(counter_delta(prev.tx_bytes, cur.tx_bytes), elapsed),
            }
        },
    }
}

/// Throughput of one counter between two readings `elapsed_ns` apart.
pub fn counter_rate(prev: u64, cur: u64, elapsed_ns: u64) -> (r: u64)
    requires
        elapsed_ns > 0,
    ensures
        r == kb_per_sec(counter_delta(prev, cur), elapsed_ns as nat),
{
    let delta: u64 = cur.saturating_sub(prev);
    let d = delta as u128;
    let e = elapsed_ns as u128;
    assert(d * 1_000_000_000 <= 0xffff_ffff_ffff_ffffu128 * 1_000_000_000) by (nonlinear_arith)
        requires d <= 0xffff_ffff_ffff_ffffu128;
    assert(e * 1024 <= 0xffff_ffff_ffff_ffffu128 * 1024) by (nonlinear_arith)
        requires e <= 0xffff_ffff_ffff_ffffu128;
    let num: u128 = d * (NANOS_PER_SEC as u128);
    let den: u128 = e * (BYTES_PER_KB as u128);
    let q: u128 = num / den;
    if q > u64::MAX as u128 {
        u64::MAX
    } else {
        q as u64
    }
}

/// The throughput for `cur` against the baseline `last`.
pub fn compute_rate(last: Option<NetSample>, cur: NetSample) -> (r: NetRate)
    ensures
        r == rate_between(last, cur),
{
    match last {
        None => NetRate { down_kbps: 0, up_kbps: 0 },
        Some(prev) => {
            if cur.at_ns <= prev.at_ns {
                NetRate { down_kbps: 0, up_kbps: 0 }
            } else {
                let elapsed: u64 = cur.at_ns - prev.at_ns;
                NetRate {
                    down_kbps: counter_rate(prev.rx_bytes, cur.rx_bytes, elapsed),
                    up_kbps: counter_rate(prev.tx_bytes, cur.tx_bytes, elapsed),
                }
            }
        },
    }
}

/// Cumulative byte counters of one network interface.
#[derive(Clone, Copy, Debug, PartialEq, Eq, Structural)]
pub struct InterfaceCounters {
    pub received: u64,
    pub transmitted: u64,
}

/// Bytes received by an interface.
pub open spec fn received_of(c: InterfaceCounters) -> u64 {
    c.received
}

/// Bytes sent by an interface.
pub open spec fn transmitted_of(c: InterfaceCounters) -> u64 {
    c.transmitted
}

/// The counters of all interfaces summed (capped at the largest `u64`) into
/// one reading taken at `at_ns`.
pub open spec fn sample_of(interfaces: Seq<InterfaceCounters>, at_ns: u64) -> NetSample {
    NetSample {
        at_ns,
        rx_bytes: capped(total_of(interfaces, |c: InterfaceCounters| received_of(c))),
        tx_bytes: capped(total_of(interfaces, |c: InterfaceCounters| transmitted_of(c))),
    }
}

/// Computes `sample_of`.
pub fn net_sample(interfaces: &Vec<InterfaceCounters>, at_ns: u64) -> (r: NetSample)
    ensures
        r == sample_of(interfaces@, at_ns),
{
    let ghost fr = |c: InterfaceCounters| received_of(c);
    let ghost ft = |c: InterfaceCounters| transmitted_of(c);
    let mut rx: u64 = 0;
    let mut tx: u64 = 0;
    let mut i: usize = 0;
    while i < interfaces.len()
        invariant
            i <= interfaces@.len(),
            fr == (|c: InterfaceCounters| received_of(c)),
            ft == (|c: InterfaceCounters| transmitted_of(c)),
            rx == capped(total_of(interfaces@.subrange(0, i as int), fr)),
            tx == capped(total_of(interfaces@.subrange(0, i as int), ft)),
        decreases interfaces@.len() - i,
    {
        proof {
            let s = interfaces@.subrange(0, i + 1);
            assert(s.drop_last() =~= interfaces@.subrange(0, i as int));
            assert(s.last() == interfaces@[i as int]);
            assert(total_of(s, fr) == total_of(s.drop_last(), fr) + fr(s.last()) as nat);
            assert(total_of(s, ft) == total_of(s.drop_last(), ft) + ft(s.last()) as nat);
        }
        rx = rx.saturating_add(interfaces[i].received);
        tx = tx.saturating_add(interfaces[i].transmitted);
        i = i + 1;
    }
    assert(interfaces@.subrange(0, i as int) =~= interfaces@);
    NetSample { at_ns, rx_bytes: rx, tx_bytes: tx }
}

/// Holds the last network reading, against which the next one is measured.
#[derive(Debug)]
pub struct RateTracker {
    pub last: Option<NetSample>,
}

impl RateTracker {
    /// A tracker with no baseline yet.
    pub fn new() -> (t: RateTracker)
        ensures
            t.last is None,
    {
        RateTracker { last: None }
    }

    /// The tracker and the reported throughput after `cur` is fed in.
    pub open spec fn after(self, cur: NetSample) -> (RateTracker, NetRate) {
        (RateTracker { last: Some(cur) }, rate_between(self.last, cur))
    }

    /// Reports the throughput for `cur` and makes `cur` the new baseline,
    /// whatever the outcome.
    pub fn update(&mut self, cur: NetSample) -> (r: NetRate)
        ensures
            (*final(self), r) == old(self).after(cur),
            r == rate_between(old(self).last, cur),
            final(self).last == Some(cur),
    {
        let r = compute_rate(self.last, cur);
        self.last = Some(cur);
        r
    }
}

/// Without a baseline, the first reading reports no throughput in either
/// direction, whatever its counters.
pub proof fn lemma_first_reading_reports_zero(t: RateTracker, cur: NetSample)
    requires
        t.last is None,
    ensures
        t.after(cur).1 == (NetRate { down_kbps: 0, up_kbps: 0 }),
        t.after(cur).0.last == Some(cur),
{
}

/// With counters that did not go backwards over a positive interval, each
/// reported throughput is the floor of the byte difference over the elapsed
/// seconds over 1024: `r * elapsed * 1024 <= delta * 10^9`, and the next
/// integer overshoots (unless the figure is capped at the largest `u64`).
pub proof fn lemma_rate_is_floor_of_throughput(last: NetSample, cur: NetSample)
    requires
        cur.at_ns > last.at_ns,
        cur.rx_bytes >= last.rx_bytes,
        cur.tx_bytes >= last.tx_bytes,
    ensures
        ({
            let r = rate_between(Some(last), cur);
            let per = (cur.at_ns - last.at_ns) * 1024;
            let down = (cur.rx_bytes - last.rx_bytes) * 1_000_000_000;
            let up = (cur.tx_bytes - last.tx_bytes) * 1_000_000_000;
            &&& r.down_kbps * per <= down
            &&& (r.down_kbps == u64::MAX || down < (r.down_kbps + 1) * per)
            &&& r.up_kbps * per <= up
            &&& (r.up_kbps == u64::MAX || up < (r.up_kbps + 1) * per)
        }),
{
    let per: int = (cur.at_ns - last.at_ns) * 1024;
    lemma_floor_bounds((cur.rx_bytes - last.rx_bytes) * 1_000_000_000, per);
    lemma_floor_bounds((cur.tx_bytes - last.tx_bytes) * 1_000_000_000, per);
}

proof fn lemma_floor_bounds(n: int, d: int)
    requires
        n >= 0,
        d > 0,
    ensures
        ({
            let q = n / d;
            let c: int = if q > u64::MAX {
                u64::MAX as int
            } else {
                q
            };
            &&& c * d <= n
            &&& (c == u64::MAX || n < (c + 1) * d)
        }),
{
    let q = n / d;
    vstd::arithmetic::div_mod::lemma_fundamental_div_mod(n, d);
    vstd::arithmetic::div_mod::lemma_mod_pos_bound(n, d);
    let m = n % d;
    assert(q * d <= n && n < (q + 1) * d) by (nonlinear_arith)
        requires n == d * q + m, 0 <= m < d;
    if q > u64::MAX {
        assert(u64::MAX * d <= q * d) by (nonlinear_arith)
            requires q > u64::MAX, d > 0;
    }
}

/// A counter that went backwards (an interface restart) reports no
/// throughput in its direction, and the reading still becomes the baseline.
pub proof fn lemma_counter_reset_reports_zero(t: RateTracker, cur: NetSample)
    requires
        t.last is Some,
        cur.rx_bytes < t.last->Some_0.rx_bytes,
    ensures
        t.after(cur).1.down_kbps == 0,
        t.after(cur).0.last == Some(cur),
{
    let last = t.last->Some_0;
    if cur.at_ns > last.at_ns {
        assert(counter_delta(last.rx_bytes, cur.rx_bytes) == 0);
        assert(0nat * NANOS_PER_SEC == 0);
        let e = (cur.at_ns - last.at_ns) as nat;
        assert(0int / (e * BYTES_PER_KB) == 0) by (nonlinear_arith)
            requires e > 0;
    }
}

} // verus!
