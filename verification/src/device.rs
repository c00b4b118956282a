//! The device task around the mailbox: a single cooperative loop that marks
//! itself ready, suspends for the scheduler's interval, wakes, and either
//! backs off (no kick pending) or consumes one kick and hands the buffers to
//! the bytecode engine for exactly one invocation. The engine call and the
//! timed suspension are the surrounding runtime's work; every decision around
//! them is made here.

use vstd::prelude::*;
use vstd::pervasive::VecAdditionalExecFns;
use crate::{STACK_SLOTS, SCRATCH_SIZE, MIN_SLEEP_MS};
use crate::mailbox::{
    Mailbox, FailureDesc, TraceEvent, spec_begin_wait, spec_end_wait, spec_take_kick,
    spec_process_one,
};
use crate::sched::{Scheduler, spec_idle_tick};

verus! {

/// What the device decided after waking from a timed wait.
#[derive(Clone, Copy, PartialEq, Eq, Structural, Debug)]
pub enum Wake {
    /// No kick was pending; keep idling.
    Idle,
    /// One kick was consumed; run one invocation now.
    Activate,
}

/// Device-private task state: the scheduler plus the engine's operand stack
/// and scratch workspace, both statically sized and reinitialized empty for
/// every invocation.
pub struct Device {
    pub sched: Scheduler,
    pub stack: Vec<Option<u32>>,
    pub scratch: Vec<u8>,
}

impl Device {
    /// Buffer sizes are fixed for the task's lifetime and the scheduler stays
    /// inside its bounds.
    pub open spec fn wf(&self) -> bool {
        &&& self.sched.wf()
        &&& self.stack@.len() == STACK_SLOTS
        &&& self.scratch@.len() == SCRATCH_SIZE
    }

    /// A fresh device: coarse initial interval, empty operand stack, zeroed
    /// scratch.
    pub fn new() -> (d: Device)
        ensures
            d.wf(),
            d.sched == Scheduler::spec_initial(),
    {
        Device {
            sched: Scheduler::new(),
            stack: none_slots(STACK_SLOTS),
            scratch: crate::mailbox::zero_bytes(SCRATCH_SIZE),
        }
    }

    /// Mark ready and report how long to suspend; the surrounding runtime
    /// performs the cooperative sleep itself.
    pub fn begin_wait(&self, mb: &mut Mailbox) -> (ms: u32)
        ensures
            final(mb).state() == spec_begin_wait(old(mb).state()),
            final(mb).text@ == old(mb).text@,
            final(mb).data@ == old(mb).data@,
            final(mb).rstack@ == old(mb).rstack@,
            ms == self.sched.sleep_ms,
    {
        mb.ready = if mb.ready == u32::MAX { 0 } else { mb.ready + 1 };
        self.sched.sleep_ms
    }

    /// Unmark ready right after waking: the flag nets back to its prior value
    /// around every sleep.
    pub fn end_wait(&self, mb: &mut Mailbox)
        ensures
            final(mb).state() == spec_end_wait(old(mb).state()),
            final(mb).text@ == old(mb).text@,
            final(mb).data@ == old(mb).data@,
            final(mb).rstack@ == old(mb).rstack@,
    {
        mb.ready = if mb.ready == 0 { u32::MAX } else { mb.ready - 1 };
    }

    /// The wake decision. With no kick pending, count an idle tick and keep
    /// idling. Otherwise consume exactly one kick, snap the interval to the
    /// 1ms minimum, and reinitialize the operand stack and scratch for the
    /// invocation about to run.
    pub fn poll(&mut self, mb: &mut Mailbox) -> (w: Wake)
        requires
            old(self).wf(),
        ensures
            final(self).wf(),
            final(mb).text@ == old(mb).text@,
            final(mb).data@ == old(mb).data@,
            final(mb).rstack@ == old(mb).rstack@,
            old(mb).kick == 0 ==> {
                &&& w == Wake::Idle
                &&& final(self).sched == spec_idle_tick(old(self).sched)
                &&& final(mb).state() == old(mb).state()
                &&& final(self).stack@ == old(self).stack@
                &&& final(self).scratch@ == old(self).scratch@
            },
            old(mb).kick != 0 ==> {
                &&& w == Wake::Activate
                &&& final(self).sched == (Scheduler { sleep_ms: MIN_SLEEP_MS, sleeps: 0u32 })
                &&& final(mb).state() == spec_take_kick(old(mb).state())
                &&& final(self).stack@ == Seq::new(STACK_SLOTS as nat, |i: int| None::<u32>)
                &&& final(self).scratch@ == Seq::new(SCRATCH_SIZE as nat, |i: int| 0u8)
            },
    {
        if mb.kick == 0 {
            self.sched.note_idle();
            Wake::Idle
        } else {
            mb.kick = mb.kick - 1;
            self.sched.note_kick();
            self.reset_invocation_buffers();
            Wake::Activate
        }
    }

    /// One pending request processed to completion: consume exactly one
    /// queued kick, then record the outcome the engine produced for it. The
    /// engine call itself happens between the two halves, outside this type;
    /// this is the whole device-side transition such a request causes, and it
    /// is exactly one `spec_process_one` step of the protocol state.
    pub fn process_one(
        &mut self,
        mb: &mut Mailbox,
        outcome: Result<(), FailureDesc>,
    ) -> (ev: TraceEvent)
        requires
            old(self).wf(),
            old(mb).kick != 0,
        ensures
            final(self).wf(),
            final(mb).state() == spec_process_one(old(mb).state(), outcome),
            final(self).sched == (Scheduler { sleep_ms: MIN_SLEEP_MS, sleeps: 0u32 }),
            final(mb).text@ == old(mb).text@,
            final(mb).data@ == old(mb).data@,
            final(mb).rstack@ == old(mb).rstack@,
            ev == (match outcome {
                Ok(_) => TraceEvent::Success,
                Err(d) => TraceEvent::Failure(d),
            }),
    {
        let w = self.poll(mb);
        match w {
            Wake::Activate => mb.publish(outcome),
            Wake::Idle => {
                proof {
                    assert(false);
                }
                TraceEvent::Success
            }
        }
    }

    /// Empty the operand stack and zero the scratch workspace: each
    /// invocation starts from a clean slate.
    fn reset_invocation_buffers(&mut self)
        requires
            old(self).wf(),
        ensures
            final(self).sched == old(self).sched,
            final(self).wf(),
            final(self).stack@ == Seq::new(STACK_SLOTS as nat, |i: int| None::<u32>),
            final(self).scratch@ == Seq::new(SCRATCH_SIZE as nat, |i: int| 0u8),
    {
        let mut i: usize = 0;
        while i < STACK_SLOTS
            invariant
                i <= STACK_SLOTS,
                self.stack@.len() == STACK_SLOTS,
                self.scratch@.len() == SCRATCH_SIZE,
                self.sched == old(self).sched,
                forall|j: int| 0 <= j < i ==> self.stack@[j] == None::<u32>,
            decreases STACK_SLOTS - i,
        {
            self.stack.set(i, None);
            i = i + 1;
        }
        let mut k: usize = 0;
        while k < SCRATCH_SIZE
            invariant
                k <= SCRATCH_SIZE,
                self.stack@.len() == STACK_SLOTS,
                self.scratch@.len() == SCRATCH_SIZE,
                self.sched == old(self).sched,
                forall|j: int| 0 <= j < self.stack@.len() ==> self.stack@[j] == None::<u32>,
                forall|j: int| 0 <= j < k ==> self.scratch@[j] == 0u8,
            decreases SCRATCH_SIZE - k,
        {
            self.scratch.set(k, 0);
            k = k + 1;
        }
        proof {
            assert(self.stack@ =~= Seq::new(STACK_SLOTS as nat, |i: int| None::<u32>));
            assert(self.scratch@ =~= Seq::new(SCRATCH_SIZE as nat, |i: int| 0u8));
        }
    }
}

/// A buffer of empty operand-stack slots.
fn none_slots(n: usize) -> (v: Vec<Option<u32>>)
    ensures
        v@ == Seq::new(n as nat, |i: int| None::<u32>),
{
    let mut v: Vec<Option<u32>> = Vec::new();
    let mut i: usize = 0;
    while i < n
        invariant
            i <= n,
            v@ == Seq::new(i as nat, |j: int| None::<u32>),
        decreases n - i,
    {
        v.push(None);
        i = i + 1;
        proof {
            assert(v@ =~= Seq::new(i as nat, |j: int| None::<u32>));
        }
    }
    v
}

} // verus!
