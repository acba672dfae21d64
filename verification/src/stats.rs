//! Traffic counters for a connection: what this session moved, and what the
//! profile has moved over its lifetime.
//!
//! The helper reports libopenconnect's cumulative counters. They only grow,
//! except when the native side restarts them; either way the totals kept
//! here never go down.
use vstd::prelude::*;

use crate::text::{decimal, decimal_chars, string_of};

verus! {

/// Totals kept for a profile.
#[derive(Debug, Clone, Copy, Default, PartialEq, Eq, Structural)]
pub struct NetworkTotals {
    pub rx_bytes: u64,
    pub tx_bytes: u64,
    pub rx_packets: u64,
    pub tx_packets: u64,
}

/// One snapshot of the four counters.
#[derive(Debug, Clone, Copy, PartialEq, Eq, Structural)]
pub struct RawCounters {
    pub rx_bytes: u64,
    pub tx_bytes: u64,
    pub rx_packets: u64,
    pub tx_packets: u64,
}

/// How much a counter grew since the last snapshot; a counter that went
/// down was restarted, and all of its current value is new.
pub open spec fn grew(current: u64, before: u64) -> u64 {
    if current >= before {
        (current - before) as u64
    } else {
        current
    }
}

/// A sum that stops at the largest value instead of wrapping.
pub open spec fn sat_add(a: u64, b: u64) -> u64 {
    if a + b > u64::MAX {
        u64::MAX
    } else {
        (a + b) as u64
    }
}

/// Every counter of `a` is at most the same counter of `b`.
pub open spec fn at_most(a: RawCounters, b: RawCounters) -> bool {
    &&& a.rx_bytes <= b.rx_bytes
    &&& a.tx_bytes <= b.tx_bytes
    &&& a.rx_packets <= b.rx_packets
    &&& a.tx_packets <= b.tx_packets
}

/// The counters of stored totals.
pub open spec fn counters_of(t: NetworkTotals) -> RawCounters {
    RawCounters {
        rx_bytes: t.rx_bytes,
        tx_bytes: t.tx_bytes,
        rx_packets: t.rx_packets,
        tx_packets: t.tx_packets,
    }
}

/// Counters as totals to store.
pub open spec fn totals_of(c: RawCounters) -> NetworkTotals {
    NetworkTotals {
        rx_bytes: c.rx_bytes,
        tx_bytes: c.tx_bytes,
        rx_packets: c.rx_packets,
        tx_packets: c.tx_packets,
    }
}

/// All counters zero.
pub open spec fn no_counters() -> RawCounters {
    RawCounters { rx_bytes: 0, tx_bytes: 0, rx_packets: 0, tx_packets: 0 }
}

/// What a snapshot adds to the one before it.
pub open spec fn delta_of(raw: RawCounters, previous: Option<RawCounters>) -> RawCounters {
    match previous {
        Some(p) => RawCounters {
            rx_bytes: grew(raw.rx_bytes, p.rx_bytes),
            tx_bytes: grew(raw.tx_bytes, p.tx_bytes),
            rx_packets: grew(raw.rx_packets, p.rx_packets),
            tx_packets: grew(raw.tx_packets, p.tx_packets),
        },
        None => raw,
    }
}

/// Counters added up, saturating.
pub open spec fn sum(a: RawCounters, b: RawCounters) -> RawCounters {
    RawCounters {
        rx_bytes: sat_add(a.rx_bytes, b.rx_bytes),
        tx_bytes: sat_add(a.tx_bytes, b.tx_bytes),
        rx_packets: sat_add(a.rx_packets, b.rx_packets),
        tx_packets: sat_add(a.tx_packets, b.tx_packets),
    }
}

fn counter_delta(current: u64, before: u64) -> (r: u64)
    ensures
        r == grew(current, before),
{
    if current >= before {
        current - before
    } else {
        current
    }
}

impl RawCounters {
    /// All zero.
    pub fn zero() -> (r: RawCounters)
        ensures
            r.rx_bytes == 0 && r.tx_bytes == 0 && r.rx_packets == 0 && r.tx_packets == 0,
    {
        RawCounters { rx_bytes: 0, tx_bytes: 0, rx_packets: 0, tx_packets: 0 }
    }

    /// What this snapshot adds to the one before it; the first snapshot of a
    /// session counts in full.
    pub fn delta(self, previous: Option<RawCounters>) -> (r: RawCounters)
        ensures
            match previous {
                Some(p) => {
                    &&& r.rx_bytes == grew(self.rx_bytes, p.rx_bytes)
                    &&& r.tx_bytes == grew(self.tx_bytes, p.tx_bytes)
                    &&& r.rx_packets == grew(self.rx_packets, p.rx_packets)
                    &&& r.tx_packets == grew(self.tx_packets, p.tx_packets)
                },
                None => r == self,
            },
            at_most(r, self),
    {
        match previous {
            Some(p) => RawCounters {
                rx_bytes: counter_delta(self.rx_bytes, p.rx_bytes),
                tx_bytes: counter_delta(self.tx_bytes, p.tx_bytes),
                rx_packets: counter_delta(self.rx_packets, p.rx_packets),
                tx_packets: counter_delta(self.tx_packets, p.tx_packets),
            },
            None => self,
        }
    }

    /// The counters added up, each stopping at the largest value instead of
    /// wrapping.
    pub fn add(self, other: RawCounters) -> (r: RawCounters)
        ensures
            r.rx_bytes == sat_add(self.rx_bytes, other.rx_bytes),
            r.tx_bytes == sat_add(self.tx_bytes, other.tx_bytes),
            r.rx_packets == sat_add(self.rx_packets, other.rx_packets),
            r.tx_packets == sat_add(self.tx_packets, other.tx_packets),
            at_most(self, r),
    {
        RawCounters {
            rx_bytes: self.rx_bytes.saturating_add(other.rx_bytes),
            tx_bytes: self.tx_bytes.saturating_add(other.tx_bytes),
            rx_packets: self.rx_packets.saturating_add(other.rx_packets),
            tx_packets: self.tx_packets.saturating_add(other.tx_packets),
        }
    }

    /// The counters of stored totals.
    pub fn from_totals(value: NetworkTotals) -> (r: RawCounters)
        ensures
            r.rx_bytes == value.rx_bytes && r.tx_bytes == value.tx_bytes && r.rx_packets
                == value.rx_packets && r.tx_packets == value.tx_packets,
    {
        RawCounters {
            rx_bytes: value.rx_bytes,
            tx_bytes: value.tx_bytes,
            rx_packets: value.rx_packets,
            tx_packets: value.tx_packets,
        }
    }

    /// The counters as totals to store.
    pub fn to_totals(self) -> (r: NetworkTotals)
        ensures
            r.rx_bytes == self.rx_bytes && r.tx_bytes == self.tx_bytes && r.rx_packets
                == self.rx_packets && r.tx_packets == self.tx_packets,
    {
        NetworkTotals {
            rx_bytes: self.rx_bytes,
            tx_bytes: self.tx_bytes,
            rx_packets: self.rx_packets,
            tx_packets: self.tx_packets,
        }
    }
}

/// A restarted native counter never reduces what a session has counted:
/// whatever the snapshot, the delta is never negative, and adding it never
/// lowers a total.
pub proof fn law_totals_never_go_down(total: u64, current: u64, before: u64)
    ensures
        sat_add(total, grew(current, before)) >= total,
        grew(current, before) <= current,
{
}

/// Counters as the window shows them: decimal strings, since JavaScript
/// numbers cannot hold every `u64`.
#[derive(Debug)]
pub struct NetworkCounters {
    pub download_bytes: String,
    pub upload_bytes: String,
    pub download_packets: String,
    pub upload_packets: String,
}

impl NetworkCounters {
    pub fn from_raw(value: RawCounters) -> (r: NetworkCounters)
        ensures
            r.download_bytes@ == decimal(value.rx_bytes as nat),
            r.upload_bytes@ == decimal(value.tx_bytes as nat),
            r.download_packets@ == decimal(value.rx_packets as nat),
            r.upload_packets@ == decimal(value.tx_packets as nat),
    {
        NetworkCounters {
            download_bytes: string_of(&decimal_chars(value.rx_bytes as u128)),
            upload_bytes: string_of(&decimal_chars(value.tx_bytes as u128)),
            download_packets: string_of(&decimal_chars(value.rx_packets as u128)),
            upload_packets: string_of(&decimal_chars(value.tx_packets as u128)),
        }
    }
}

/// How often, in milliseconds, the lifetime totals are written back while a
/// session runs.
pub const CHECKPOINT_MS: u64 = 10000;

/// Whether it is time to write the totals back.
pub fn checkpoint_due(elapsed_ms: u64) -> (r: bool)
    ensures
        r == (elapsed_ms >= CHECKPOINT_MS),
{
    elapsed_ms >= CHECKPOINT_MS
}

/// The counters of one session, on top of what the profile had before it.
pub struct StatsTracker {
    pub profile_id: String,
    /// The profile's lifetime totals when the session began.
    pub baseline: RawCounters,
    /// What this session has moved so far.
    pub session: RawCounters,
    /// The last snapshot the helper reported.
    pub previous: Option<RawCounters>,
}

impl StatsTracker {
    pub fn new(profile_id: String, baseline: NetworkTotals) -> (r: StatsTracker)
        ensures
            r.profile_id@ == profile_id@,
            r.baseline == counters_of(baseline),
            r.session == no_counters(),
            r.previous is None,
    {
        StatsTracker {
            profile_id,
            baseline: RawCounters::from_totals(baseline),
            session: RawCounters::zero(),
            previous: None,
        }
    }

    /// Takes a cumulative snapshot: what it adds is counted into the session,
    /// and it becomes the snapshot the next one is compared against. Returns
    /// what it added.
    pub fn record(&mut self, raw: RawCounters) -> (r: RawCounters)
        ensures
            r == delta_of(raw, old(self).previous),
            final(self).session == sum(old(self).session, r),
            final(self).previous == Some(raw),
            final(self).baseline == old(self).baseline,
            final(self).profile_id@ == old(self).profile_id@,
            at_most(old(self).session, final(self).session),
    {
        let delta = raw.delta(self.previous);
        self.session = self.session.add(delta);
        self.previous = Some(raw);
        delta
    }

    /// The session's counters.
    pub fn session(&self) -> (r: RawCounters)
        ensures
            r == self.session,
    {
        self.session
    }

    /// The profile's lifetime counters: what it had, plus this session.
    pub fn lifetime(&self) -> (r: RawCounters)
        ensures
            r == sum(self.baseline, self.session),
    {
        self.baseline.add(self.session)
    }

    /// What to write back for the profile.
    pub fn persisted(&self) -> (r: (String, NetworkTotals))
        ensures
            r.0@ == self.profile_id@,
            r.1 == totals_of(sum(self.baseline, self.session)),
    {
        (self.profile_id.clone(), self.lifetime().to_totals())
    }
}

} // verus!
