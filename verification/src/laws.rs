//! Protocol laws: properties of the mailbox transitions and of the
//! scheduler's backoff that hold across whole runs, proved once here so that
//! the host can rely on them when polling the counters.

use vstd::prelude::*;
use crate::{MIN_SLEEP_MS, MAX_SLEEP_MS, IDLE_TICKS_PER_BACKOFF};
use crate::mailbox::{
    MailboxState, FailureDesc, wrap_inc, wrap_dec, spec_signal, spec_begin_wait, spec_end_wait,
    spec_publish, spec_process_one, spec_process_seq,
};
use crate::sched::{Scheduler, spec_idle_tick, spec_idle_run};

verus! {

/// Conservation over a fully processed run: each outcome consumes exactly one
/// queued kick and bumps exactly one of the two counters, so after processing
/// `outs.len()` requests the counters have grown by exactly that many in
/// total, exactly that many kicks are gone, and the ready flag is untouched.
/// In particular, starting from zeroed counters and `K` queued kicks, fully
/// processing them leaves `requests + errors == K`.
pub proof fn lemma_kick_conservation(s: MailboxState, outs: Seq<Result<(), FailureDesc>>)
    requires
        outs.len() <= s.kick,
        s.requests + outs.len() <= u32::MAX,
        s.errors + outs.len() <= u32::MAX,
    ensures
        spec_process_seq(s, outs).requests + spec_process_seq(s, outs).errors == s.requests
            + s.errors + outs.len(),
        spec_process_seq(s, outs).kick == s.kick - outs.len(),
        spec_process_seq(s, outs).ready == s.ready,
    decreases outs.len(),
{
    if outs.len() > 0 {
        let s1 = spec_process_one(s, outs[0]);
        lemma_kick_conservation(s1, outs.drop_first());
    }
}

/// A kick signalled while an invocation is being processed is not lost: the
/// reporter's publish step never touches the kick counter, so the queue depth
/// after publishing still shows the freshly signalled request.
pub proof fn lemma_signal_during_processing_queues(
    s: MailboxState,
    outcome: Result<(), FailureDesc>,
)
    ensures
        spec_publish(spec_signal(s), outcome).kick == wrap_inc(s.kick),
{
}

/// The last-failure slot is diagnostic, not live status: once a failing
/// invocation has written its descriptor, any run of purely successful
/// invocations leaves the slot holding exactly that descriptor.
pub proof fn lemma_failure_slot_persists(
    s: MailboxState,
    d: FailureDesc,
    outs: Seq<Result<(), FailureDesc>>,
)
    requires
        forall|i: int| 0 <= i < outs.len() ==> outs[i] == Ok::<(), FailureDesc>(()),
    ensures
        spec_process_seq(spec_process_one(s, Err(d)), outs).failure == Some(d),
    decreases outs.len(),
{
    let s1 = spec_process_one(s, Err(d));
    assert(s1.failure == Some(d));
    lemma_all_ok_preserves_failure(s1, outs);
}

/// Successful outcomes never change the failure slot, over any run.
pub proof fn lemma_all_ok_preserves_failure(s: MailboxState, outs: Seq<Result<(), FailureDesc>>)
    requires
        forall|i: int| 0 <= i < outs.len() ==> outs[i] == Ok::<(), FailureDesc>(()),
    ensures
        spec_process_seq(s, outs).failure == s.failure,
    decreases outs.len(),
{
    if outs.len() > 0 {
        lemma_all_ok_preserves_failure(spec_process_one(s, outs[0]), outs.drop_first());
    }
}

/// The ready flag nets to its prior value around every sleep: marking ready
/// and then unmarking it restores the whole mailbox state exactly, even at
/// the 32-bit wrap point.
pub proof fn lemma_ready_nets(s: MailboxState)
    ensures
        spec_end_wait(spec_begin_wait(s)) == s,
{
    assert(wrap_dec(wrap_inc(s.ready)) == s.ready);
}

/// One idle tick keeps the scheduler well formed and never stretches the
/// interval past the 250ms ceiling.
pub proof fn lemma_idle_tick_wf(s: Scheduler)
    requires
        s.wf(),
    ensures
        spec_idle_tick(s).wf(),
        s.sleep_ms <= spec_idle_tick(s).sleep_ms,
{
}

/// However long the device idles, the interval stays within [1, 250]ms.
pub proof fn lemma_idle_run_capped(s: Scheduler, n: nat)
    requires
        s.wf(),
    ensures
        spec_idle_run(s, n).wf(),
        spec_idle_run(s, n).sleep_ms <= MAX_SLEEP_MS,
    decreases n,
{
    if n > 0 {
        lemma_idle_run_capped(s, (n - 1) as nat);
        lemma_idle_tick_wf(spec_idle_run(s, (n - 1) as nat));
    }
}

/// Idle runs compose: idling `a + b` ticks is idling `a`, then `b`.
pub proof fn lemma_idle_run_splits(s: Scheduler, a: nat, b: nat)
    ensures
        spec_idle_run(s, a + b) == spec_idle_run(spec_idle_run(s, a), b),
    decreases b,
{
    if b > 0 {
        lemma_idle_run_splits(s, a, (b - 1) as nat);
    }
}

/// Ten idle ticks from a fresh count stretch the interval exactly tenfold,
/// capped at the ceiling, and leave the count fresh again.
pub proof fn lemma_ten_idle_ticks(s: Scheduler)
    requires
        s.sleeps == 0,
    ensures
        spec_idle_run(s, IDLE_TICKS_PER_BACKOFF as nat) == (Scheduler {
            sleep_ms: crate::sched::capped_tenfold(s.sleep_ms),
            sleeps: 0u32,
        }),
{
    reveal_with_fuel(spec_idle_run, 11);
    assert(spec_idle_run(s, 9).sleeps == 9 && spec_idle_run(s, 9).sleep_ms == s.sleep_ms);
    assert(spec_idle_run(s, 10) == spec_idle_tick(spec_idle_run(s, 9)));
}

/// At the ceiling the interval stays at the ceiling, forever.
pub proof fn lemma_ceiling_is_fixed(s: Scheduler, n: nat)
    requires
        s.sleep_ms == MAX_SLEEP_MS,
        s.sleeps < IDLE_TICKS_PER_BACKOFF,
    ensures
        spec_idle_run(s, n).sleep_ms == MAX_SLEEP_MS,
        spec_idle_run(s, n).sleeps < IDLE_TICKS_PER_BACKOFF,
    decreases n,
{
    if n > 0 {
        lemma_ceiling_is_fixed(s, (n - 1) as nat);
    }
}

/// With no kicks, the interval sequence out of the post-activity minimum is
/// 1 → 10 → 100 → 250 after ten idle ticks each, and 250 from then on.
pub proof fn lemma_idle_backoff_sequence(n: nat)
    requires
        n >= 30,
    ensures
        spec_idle_run(Scheduler { sleep_ms: MIN_SLEEP_MS, sleeps: 0u32 }, 10).sleep_ms == 10,
        spec_idle_run(Scheduler { sleep_ms: MIN_SLEEP_MS, sleeps: 0u32 }, 20).sleep_ms == 100,
        spec_idle_run(Scheduler { sleep_ms: MIN_SLEEP_MS, sleeps: 0u32 }, 30).sleep_ms
            == MAX_SLEEP_MS,
        spec_idle_run(Scheduler { sleep_ms: MIN_SLEEP_MS, sleeps: 0u32 }, n).sleep_ms
            == MAX_SLEEP_MS,
{
    let s0 = Scheduler { sleep_ms: MIN_SLEEP_MS, sleeps: 0u32 };
    lemma_ten_idle_ticks(s0);
    let s1 = spec_idle_run(s0, 10);
    assert(s1 == (Scheduler { sleep_ms: 10u32, sleeps: 0u32 }));
    lemma_ten_idle_ticks(s1);
    lemma_idle_run_splits(s0, 10, 10);
    let s2 = spec_idle_run(s0, 20);
    assert(s2 == (Scheduler { sleep_ms: 100u32, sleeps: 0u32 }));
    lemma_ten_idle_ticks(s2);
    lemma_idle_run_splits(s0, 20, 10);
    let s3 = spec_idle_run(s0, 30);
    assert(s3 == (Scheduler { sleep_ms: MAX_SLEEP_MS, sleeps: 0u32 }));
    lemma_idle_run_splits(s0, 30, (n - 30) as nat);
    lemma_ceiling_is_fixed(s3, (n - 30) as nat);
}

} // verus!
