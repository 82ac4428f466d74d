//! The timer policy of the interval strategies: a periodic tick with
//! delay-on-miss semantics. The first tick fires immediately on start. If a
//! cycle's work overruns the period, the next tick is postponed until that
//! work is done rather than firing a burst of catch-up ticks — consecutive
//! tick starts are always at least one period apart.

use vstd::prelude::*;

verus! {

/// When the next tick starts, given when the previous one started and how
/// long that cycle's work kept the loop busy: one period later, or — if the
/// work overran the period — as soon as the work finished.
pub open spec fn next_tick_start(prev: nat, period: nat, busy: nat) -> nat {
    if busy > period {
        prev + busy
    } else {
        prev + period
    }
}

/// The starting offset of tick `n`, counted from the pipeline's start, for
/// a run whose cycle `k` kept the loop busy for `busy[k]` time units. Tick
/// 0 fires at offset 0.
pub open spec fn tick_start(period: nat, busy: Seq<nat>, n: nat) -> nat
    decreases n,
{
    if n == 0 {
        0
    } else {
        next_tick_start(tick_start(period, busy, (n - 1) as nat), period, busy[n - 1])
    }
}

/// Ticks never bunch up: however far any cycles overran, `n + 1`
/// consecutive ticks span at least `n` full periods, so tick `n` starts at
/// offset at least `n` times the period.
pub proof fn lemma_ticks_never_bunch(period: nat, busy: Seq<nat>, n: nat)
    ensures
        tick_start(period, busy, n) >= n * period,
    decreases n,
{
    if n > 0 {
        let m = (n - 1) as nat;
        lemma_ticks_never_bunch(period, busy, m);
        assert(tick_start(period, busy, n) == next_tick_start(
            tick_start(period, busy, m),
            period,
            busy[n - 1],
        ));
        assert(tick_start(period, busy, n) >= tick_start(period, busy, m) + period);
        assert(m * period + period == n * period) by (nonlinear_arith)
            requires
                m + 1 == n,
        ;
    } else {
        assert(n * period == 0) by (nonlinear_arith)
            requires
                n == 0,
        ;
    }
}

/// Two consecutive ticks are never closer than one full period, however
/// long the cycle between them ran.
pub proof fn lemma_consecutive_ticks_spaced(period: nat, busy: Seq<nat>, n: nat)
    ensures
        tick_start(period, busy, n + 1) >= tick_start(period, busy, n) + period,
{
    assert(tick_start(period, busy, n + 1) == next_tick_start(
        tick_start(period, busy, n),
        period,
        busy[n as int],
    ));
}

/// Later ticks never start earlier.
pub proof fn lemma_tick_start_monotone(period: nat, busy: Seq<nat>, m: nat, n: nat)
    requires
        m <= n,
    ensures
        tick_start(period, busy, m) <= tick_start(period, busy, n),
    decreases n,
{
    if m < n {
        lemma_tick_start_monotone(period, busy, m, (n - 1) as nat);
    }
}

/// The tick schedule of a finite run, computed: entry `n` is the starting
/// offset of tick `n` under the delay-on-miss policy, for the given period
/// and the per-cycle busy times. `None` exactly when the final tick's
/// offset does not fit in the time representation.
pub fn tick_offsets(period: u64, busy: &Vec<u64>) -> (r: Option<Vec<u64>>)
    ensures
        r matches Some(offs) ==> {
            &&& offs@.len() == busy@.len() + 1
            &&& forall|n: int|
                0 <= n < offs@.len() ==> offs@[n] == tick_start(
                    period as nat,
                    busy@.map_values(|b: u64| b as nat),
                    n as nat,
                )
            &&& forall|n: int| 0 <= n < offs@.len() ==> offs@[n] >= n * (period as int)
        },
        r is None ==> tick_start(
            period as nat,
            busy@.map_values(|b: u64| b as nat),
            busy@.len(),
        ) > u64::MAX,
{
    let ghost model = busy@.map_values(|b: u64| b as nat);
    let mut offs: Vec<u64> = Vec::new();
    offs.push(0u64);
    let mut k: usize = 0;
    while k < busy.len()
        invariant
            k <= busy@.len(),
            offs@.len() == k + 1,
            model == busy@.map_values(|b: u64| b as nat),
            forall|n: int|
                0 <= n < offs@.len() ==> offs@[n] == tick_start(period as nat, model, n as nat),
        decreases busy@.len() - k,
    {
        let prev = offs[k];
        let step = if busy[k] > period {
            busy[k]
        } else {
            period
        };
        match prev.checked_add(step) {
            Some(next) => {
                offs.push(next);
            },
            None => {
                proof {
                    lemma_tick_start_monotone(period as nat, model, (k + 1) as nat, model.len());
                }
                return None;
            },
        }
        k = k + 1;
    }
    proof {
        assert forall|n: int| 0 <= n < offs@.len() implies offs@[n] >= n * (period as int) by {
            lemma_ticks_never_bunch(period as nat, model, n as nat);
        }
    }
    Some(offs)
}

} // verus!
