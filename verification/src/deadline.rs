//! Wall-clock budget for one connection attempt.
//!
//! Nothing below the helper can be relied on to give up on its own: a portal
//! that accepts the TCP connection and then goes quiet, a gateway that never
//! finishes the tunnel handshake, or a vpnc-script that hangs would otherwise
//! leave the attempt running until the user notices.
//!
//! The clock only advances while the attempt is working on its own behalf:
//! time the user spends deciding whether to trust a certificate, typing a
//! one-time code or picking a gateway is not time the connection is stuck.
//! The watcher that sleeps between ticks is the caller's; how a tick is
//! counted, and who may claim the outcome, is decided here.
use vstd::prelude::*;

verus! {

/// How long an attempt may spend on work of its own before it is abandoned.
pub const DEFAULT_TIMEOUT_SECS: u64 = 60;

/// Granularity of the countdown, in milliseconds. Short enough that the
/// clock restarts promptly once the user answers a prompt, long enough to
/// cost nothing while idle.
pub const TICK_MS: u64 = 200;

/// The budget of an attempt, in milliseconds: the timeout asked for, or the
/// default; zero asks for no limit at all. A timeout too long to count in
/// milliseconds is held at the largest count there is.
pub open spec fn budget_ms(timeout_secs: Option<u64>) -> nat {
    let secs = match timeout_secs {
        Some(s) => s,
        None => DEFAULT_TIMEOUT_SECS,
    };
    if secs * 1000 <= u64::MAX {
        (secs * 1000) as nat
    } else {
        u64::MAX as nat
    }
}

/// The budget of an attempt in milliseconds, `None` when it has no limit.
pub fn limit_ms(timeout_secs: Option<u64>) -> (r: Option<u64>)
    ensures
        budget_ms(timeout_secs) == 0 ==> r is None,
        budget_ms(timeout_secs) > 0 ==> r == Some(budget_ms(timeout_secs) as u64),
{
    let secs = match timeout_secs {
        Some(s) => s,
        None => DEFAULT_TIMEOUT_SECS,
    };
    let ms = match secs.checked_mul(1000) {
        Some(ms) => ms,
        None => u64::MAX,
    };
    if ms == 0 {
        None
    } else {
        Some(ms)
    }
}

/// What the watcher does after a tick.
#[derive(Debug, Clone, Copy, PartialEq, Eq, Structural)]
pub enum Tick {
    /// The attempt finished: stop watching, report nothing.
    Stop,
    /// Sleep another tick.
    Continue,
    /// The budget is spent: try to claim the outcome.
    Spent,
}

/// One tick of the countdown as plain values: nothing once the attempt is
/// done; otherwise a charged tick adds its length (held at the largest count
/// there is), and the budget is spent once the time used reaches the limit.
pub open spec fn tick_step(spent: nat, limit: nat, done: bool, charging: bool) -> (nat, Tick) {
    if done {
        (spent, Tick::Stop)
    } else {
        let next = if charging {
            if spent + TICK_MS <= u64::MAX {
                (spent + TICK_MS) as nat
            } else {
                u64::MAX as nat
            }
        } else {
            spent
        };
        (next, if next >= limit { Tick::Spent } else { Tick::Continue })
    }
}

/// The tick, counted from 0, at which a watcher that keeps ticking an
/// unfinished attempt sees the budget spent, given which ticks are charged;
/// `None` when it is not spent within them.
pub open spec fn expiry(spent: nat, limit: nat, charged: Seq<bool>) -> Option<nat>
    decreases charged.len(),
{
    if charged.len() == 0 {
        None
    } else {
        let (next, t) = tick_step(spent, limit, false, charged[0]);
        if t == Tick::Spent {
            Some(0)
        } else {
            match expiry(next, limit, charged.drop_first()) {
                Some(i) => Some(i + 1),
                None => None,
            }
        }
    }
}

/// The number of ticks an attempt that is always working takes to spend a
/// budget of `limit` milliseconds: the limit rounded up to whole ticks.
pub open spec fn ticks_for(limit: nat) -> nat {
    ((limit + TICK_MS - 1) / (TICK_MS as int)) as nat
}

/// Time that is never charged never spends the budget: an attempt that waits
/// on the user all along is never given up on.
pub proof fn law_uncharged_time_never_expires(spent: nat, limit: nat, charged: Seq<bool>)
    requires
        spent < limit,
        forall|i: int| 0 <= i < charged.len() ==> !charged[i],
    ensures
        expiry(spent, limit, charged) is None,
    decreases charged.len(),
{
    if charged.len() > 0 {
        law_uncharged_time_never_expires(spent, limit, charged.drop_first());
    }
}

/// An attempt that is always working is given up on exactly once, at the
/// tick where its time reaches the budget: after the limit rounded up to
/// whole ticks, and not a tick earlier.
pub proof fn law_working_time_expires_on_time(limit: nat, n: nat)
    requires
        0 < limit <= u64::MAX,
        ticks_for(limit) <= n,
    ensures
        expiry(0, limit, Seq::new(n, |i: int| true)) == Some((ticks_for(limit) - 1) as nat),
{
    lemma_expiry_charged(0, limit, n);
}

/// From `j` charged ticks in, with the budget not yet spent, the rest follows.
proof fn lemma_expiry_charged(j: nat, limit: nat, n: nat)
    requires
        0 < limit <= u64::MAX,
        j * TICK_MS < limit,
        j + n >= ticks_for(limit),
    ensures
        expiry((j * TICK_MS) as nat, limit, Seq::new(n, |i: int| true)) == Some((ticks_for(limit) - j - 1) as nat),
    decreases n,
{
    let all = Seq::new(n, |i: int| true);
    let k = ticks_for(limit);
    assert(k * 200 >= limit && (k - 1) * 200 < limit) by (nonlinear_arith)
        requires
            k == (limit + 199) / 200,
            limit > 0,
    ;
    assert(j < k) by (nonlinear_arith)
        requires
            j * 200 < limit,
            k * 200 >= limit,
    ;
    assert(n > 0);
    let spent = (j * TICK_MS) as nat;
    assert((j + 1) * 200 == j * 200 + 200) by (nonlinear_arith);
    if j + 1 == k {
        assert(spent + TICK_MS >= limit) by (nonlinear_arith)
            requires
                spent == j * 200,
                j + 1 == k,
                k * 200 >= limit,
        ;
        assert(tick_step(spent, limit, false, true).1 == Tick::Spent);
    } else {
        assert((j + 1) * 200 < limit) by (nonlinear_arith)
            requires
                j + 1 < k,
                (k - 1) * 200 < limit,
        ;
        assert(tick_step(spent, limit, false, true) == (((j + 1) * TICK_MS) as nat, Tick::Continue));
        assert(all.drop_first() =~= Seq::new((n - 1) as nat, |i: int| true));
        lemma_expiry_charged(j + 1, limit, (n - 1) as nat);
    }
}

/// The countdown's clock: how much of the budget the attempt has used.
pub struct Countdown {
    pub limit_ms: u64,
    pub spent_ms: u64,
}

impl Countdown {
    pub fn new(limit_ms: u64) -> (r: Countdown)
        ensures
            r.limit_ms == limit_ms,
            r.spent_ms == 0,
    {
        Countdown { limit_ms, spent_ms: 0 }
    }

    /// Counts one tick: nothing once the attempt is done, the tick's length
    /// while the attempt is working on its own behalf.
    pub fn tick(&mut self, done: bool, charging: bool) -> (r: Tick)
        requires
            old(self).spent_ms < old(self).limit_ms,
        ensures
            final(self).limit_ms == old(self).limit_ms,
            (final(self).spent_ms as nat, r) == tick_step(
                old(self).spent_ms as nat,
                old(self).limit_ms as nat,
                done,
                charging,
            ),
            done ==> r == Tick::Stop && final(self).spent_ms == old(self).spent_ms,
            !done && !charging ==> r == Tick::Continue && final(self).spent_ms == old(self).spent_ms,
            !done && charging ==> final(self).spent_ms == if old(self).spent_ms + TICK_MS <= u64::MAX {
                old(self).spent_ms + TICK_MS
            } else {
                u64::MAX as int
            },
            !done && charging ==> (r == Tick::Spent <==> final(self).spent_ms >= final(self).limit_ms),
            r == Tick::Continue ==> final(self).spent_ms < final(self).limit_ms,
    {
        if done {
            return Tick::Stop;
        }
        if charging {
            self.spent_ms = self.spent_ms.saturating_add(TICK_MS);
        }
        if self.spent_ms >= self.limit_ms {
            Tick::Spent
        } else {
            Tick::Continue
        }
    }
}

/// The flag the watcher and the attempt share: set once the attempt is over,
/// whichever of them got there first.
pub struct Deadline {
    pub done: bool,
}

impl Deadline {
    /// A running countdown.
    pub fn new() -> (r: Deadline)
        ensures
            !r.done,
    {
        Deadline { done: false }
    }

    /// Stops the countdown, for good.
    pub fn finish(&mut self)
        ensures
            final(self).done,
    {
        self.done = true;
    }

    /// Claims the outcome for the watcher: true only if nobody had finished
    /// the attempt, so an attempt that succeeded in the same instant is never
    /// torn down by its own watchdog, and expiry happens once.
    pub fn claim(&mut self) -> (r: bool)
        ensures
            r == !old(self).done,
            final(self).done,
    {
        let first = !self.done;
        self.done = true;
        first
    }
}

} // verus!
