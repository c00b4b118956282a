//! The mailbox: a fixed set of buffers and 32-bit scalars that forms the
//! host/device protocol boundary. The host writes a program into `text` (and
//! auxiliary constant data into `data`) while the device is idle, then
//! increments `kick`; the device decrements `kick` once per processed request
//! and publishes each outcome into the counters and the last-failure slot.

use vstd::prelude::*;
use vstd::pervasive::VecAdditionalExecFns;
use crate::{TEXT_SIZE, RSTACK_SIZE, DATA_SIZE_SMALL, DATA_SIZE_LARGE};

verus! {

/// Structured record explaining why an invocation did not succeed: an opaque
/// cause code plus the operand the engine was holding, if any.
#[derive(Clone, Copy, PartialEq, Eq, Debug)]
pub struct FailureDesc {
    pub cause: u32,
    pub operand: Option<u32>,
}

/// Diagnostic trace event emitted by the reporter, one per invocation.
#[derive(Clone, Copy, PartialEq, Eq, Debug)]
pub enum TraceEvent {
    Success,
    Failure(FailureDesc),
}

/// The scalar half of the mailbox: everything the host polls. Buffer contents
/// are modelled separately; these fields are the protocol state proper.
pub ghost struct MailboxState {
    pub requests: u32,
    pub errors: u32,
    pub kick: u32,
    pub ready: u32,
    pub failure: Option<FailureDesc>,
}

/// 32-bit wrapping increment, the meaning of a relaxed `fetch_add(1)`.
pub open spec fn wrap_inc(x: u32) -> u32 {
    if x == u32::MAX { 0u32 } else { (x + 1) as u32 }
}

/// 32-bit wrapping decrement, the meaning of a relaxed `fetch_sub(1)`.
pub open spec fn wrap_dec(x: u32) -> u32 {
    if x == 0 { u32::MAX } else { (x - 1) as u32 }
}

/// Host side of the protocol: one fire-and-forget request-to-execute signal.
pub open spec fn spec_signal(s: MailboxState) -> MailboxState {
    MailboxState { kick: wrap_inc(s.kick), ..s }
}

/// Device marks itself ready just before suspending.
pub open spec fn spec_begin_wait(s: MailboxState) -> MailboxState {
    MailboxState { ready: wrap_inc(s.ready), ..s }
}

/// Device unmarks ready right after waking.
pub open spec fn spec_end_wait(s: MailboxState) -> MailboxState {
    MailboxState { ready: wrap_dec(s.ready), ..s }
}

/// Device consumes exactly one queued kick (identity when none is pending).
pub open spec fn spec_take_kick(s: MailboxState) -> MailboxState {
    if s.kick == 0 {
        s
    } else {
        MailboxState { kick: (s.kick - 1) as u32, ..s }
    }
}

/// Reporter: on success bump `requests`; on failure bump `errors` and
/// overwrite the last-failure slot. The slot is never cleared on success.
pub open spec fn spec_publish(s: MailboxState, outcome: Result<(), FailureDesc>) -> MailboxState {
    match outcome {
        Ok(_) => MailboxState { requests: wrap_inc(s.requests), ..s },
        Err(d) => MailboxState { errors: wrap_inc(s.errors), failure: Some(d), ..s },
    }
}

/// One fully processed request: take a kick, then publish its outcome.
pub open spec fn spec_process_one(s: MailboxState, outcome: Result<(), FailureDesc>) -> MailboxState {
    spec_publish(spec_take_kick(s), outcome)
}

/// A run of fully processed requests, outcomes in order of occurrence.
pub open spec fn spec_process_seq(s: MailboxState, outs: Seq<Result<(), FailureDesc>>) -> MailboxState
    decreases outs.len(),
{
    if outs.len() == 0 {
        s
    } else {
        spec_process_seq(spec_process_one(s, outs[0]), outs.drop_first())
    }
}

/// The shared mailbox. Field updates are independent and non-transactional:
/// the host polls and tolerates partially updated views.
pub struct Mailbox {
    /// Program text for the engine, fixed capacity.
    pub text: Vec<u8>,
    /// Constant data referenced by the program; capacity is a board tier.
    pub data: Vec<u8>,
    /// Engine return stack; the host reads results back from here.
    pub rstack: Vec<u8>,
    /// Count of successful invocations, wrapping.
    pub requests: u32,
    /// Count of failed invocations, wrapping.
    pub errors: u32,
    /// Pending invocation requests: a queue depth, not a boolean.
    pub kick: u32,
    /// Nonzero while the device is idling between invocations.
    pub ready: u32,
    /// Most recent failure, kept for post-mortem inspection.
    pub failure: Option<FailureDesc>,
}

impl Mailbox {
    /// The scalar protocol state of this mailbox.
    pub open spec fn state(&self) -> MailboxState {
        MailboxState {
            requests: self.requests,
            errors: self.errors,
            kick: self.kick,
            ready: self.ready,
            failure: self.failure,
        }
    }

    /// Hard, board-configured buffer sizes: the layout the host relies on.
    pub open spec fn wf(&self) -> bool {
        &&& self.text@.len() == TEXT_SIZE
        &&& self.rstack@.len() == RSTACK_SIZE
        &&& (self.data@.len() == DATA_SIZE_SMALL || self.data@.len() == DATA_SIZE_LARGE)
    }

    /// A fresh mailbox with zeroed buffers and counters; `large_data` selects
    /// the board's data-segment tier.
    pub fn new(large_data: bool) -> (m: Mailbox)
        ensures
            m.wf(),
            m.text@ == Seq::new(TEXT_SIZE as nat, |i: int| 0u8),
            m.rstack@ == Seq::new(RSTACK_SIZE as nat, |i: int| 0u8),
            m.data@ == Seq::new(
                if large_data { DATA_SIZE_LARGE as nat } else { DATA_SIZE_SMALL as nat },
                |i: int| 0u8,
            ),
            m.state() == (MailboxState {
                requests: 0u32,
                errors: 0u32,
                kick: 0u32,
                ready: 0u32,
                failure: None::<FailureDesc>,
            }),
    {
        let data_size: usize = if large_data { DATA_SIZE_LARGE } else { DATA_SIZE_SMALL };
        Mailbox {
            text: zero_bytes(TEXT_SIZE),
            data: zero_bytes(data_size),
            rstack: zero_bytes(RSTACK_SIZE),
            requests: 0,
            errors: 0,
            kick: 0,
            ready: 0,
            failure: None,
        }
    }

    /// Host signal: queue one more invocation request. Fire-and-forget; no
    /// acknowledgment, and multiple signals accumulate.
    pub fn signal(&mut self)
        ensures
            final(self).state() == spec_signal(old(self).state()),
            final(self).text@ == old(self).text@,
            final(self).data@ == old(self).data@,
            final(self).rstack@ == old(self).rstack@,
    {
        self.kick = if self.kick == u32::MAX { 0 } else { self.kick + 1 };
    }

    /// Host write of program text, starting at the buffer's base; the rest of
    /// the buffer keeps its previous contents. By protocol convention the host
    /// does this only while the device is idle.
    pub fn load_text(&mut self, prog: &Vec<u8>)
        requires
            old(self).wf(),
            prog@.len() <= TEXT_SIZE,
        ensures
            final(self).wf(),
            final(self).text@ == prog@ + old(self).text@.skip(prog@.len() as int),
            final(self).data@ == old(self).data@,
            final(self).rstack@ == old(self).rstack@,
            final(self).state() == old(self).state(),
    {
        copy_into(&mut self.text, prog);
    }

    /// Host write of the constant data segment, starting at the base.
    pub fn load_data(&mut self, bytes: &Vec<u8>)
        requires
            old(self).wf(),
            bytes@.len() <= old(self).data@.len(),
        ensures
            final(self).wf(),
            final(self).data@ == bytes@ + old(self).data@.skip(bytes@.len() as int),
            final(self).text@ == old(self).text@,
            final(self).rstack@ == old(self).rstack@,
            final(self).state() == old(self).state(),
    {
        copy_into(&mut self.data, bytes);
    }

    /// Reporter: record one invocation outcome and emit the matching trace
    /// event. Success never touches the last-failure slot.
    pub fn publish(&mut self, outcome: Result<(), FailureDesc>) -> (ev: TraceEvent)
        ensures
            final(self).state() == spec_publish(old(self).state(), outcome),
            final(self).text@ == old(self).text@,
            final(self).data@ == old(self).data@,
            final(self).rstack@ == old(self).rstack@,
            ev == (match outcome {
                Ok(_) => TraceEvent::Success,
                Err(d) => TraceEvent::Failure(d),
            }),
    {
        match outcome {
            Ok(_) => {
                self.requests = if self.requests == u32::MAX { 0 } else { self.requests + 1 };
                TraceEvent::Success
            }
            Err(d) => {
                self.errors = if self.errors == u32::MAX { 0 } else { self.errors + 1 };
                self.failure = Some(d);
                TraceEvent::Failure(d)
            }
        }
    }
}

/// A zero-filled byte buffer of the requested size.
pub fn zero_bytes(n: usize) -> (v: Vec<u8>)
    ensures
        v@ == Seq::new(n as nat, |i: int| 0u8),
{
    let mut v: Vec<u8> = Vec::new();
    let mut i: usize = 0;
    while i < n
        invariant
            i <= n,
            v@ == Seq::new(i as nat, |j: int| 0u8),
        decreases n - i,
    {
        v.push(0);
        i = i + 1;
        proof {
            assert(v@ =~= Seq::new(i as nat, |j: int| 0u8));
        }
    }
    v
}

/// Overwrite the front of `dst` with `src`, leaving the tail as it was.
fn copy_into(dst: &mut Vec<u8>, src: &Vec<u8>)
    requires
        src@.len() <= old(dst)@.len(),
    ensures
        final(dst)@ == src@ + old(dst)@.skip(src@.len() as int),
{
    let mut i: usize = 0;
    while i < src.len()
        invariant
            i <= src@.len(),
            src@.len() <= dst@.len(),
            dst@.len() == old(dst)@.len(),
            forall|j: int| 0 <= j < i ==> dst@[j] == src@[j],
            forall|j: int| i <= j < dst@.len() ==> dst@[j] == old(dst)@[j],
        decreases src@.len() - i,
    {
        dst.set(i, src[i]);
        i = i + 1;
    }
    proof {
        assert(dst@ =~= src@ + old(dst)@.skip(src@.len() as int));
    }
}

} // verus!
