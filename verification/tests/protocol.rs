use hiffy::device::{Device, Wake};
use hiffy::mailbox::{FailureDesc, Mailbox, TraceEvent};

// One full device cycle without the timed suspension: wait bracketing, the
// wake decision, and (when activated) publishing the engine outcome handed
// in by the caller. Returns the trace event if an invocation ran.
fn cycle(d: &mut Device, mb: &mut Mailbox, outcome: Result<(), FailureDesc>) -> Option<TraceEvent> {
    let _ms = d.begin_wait(mb);
    d.end_wait(mb);
    match d.poll(mb) {
        Wake::Idle => None,
        Wake::Activate => Some(mb.publish(outcome)),
    }
}

#[test]
fn fresh_mailbox_layout() {
    let mb = Mailbox::new(false);
    assert_eq!(mb.text.len(), 2048);
    assert_eq!(mb.rstack.len(), 2048);
    assert_eq!(mb.data.len(), 2048);
    assert_eq!(mb.requests, 0);
    assert_eq!(mb.errors, 0);
    assert_eq!(mb.kick, 0);
    assert_eq!(mb.ready, 0);
    assert_eq!(mb.failure, None);
    let large = Mailbox::new(true);
    assert_eq!(large.data.len(), 20480);
}

#[test]
fn version_triple() {
    assert_eq!(hiffy::version(), (0, 3, 0));
}

#[test]
fn load_text_keeps_tail() {
    let mut mb = Mailbox::new(false);
    mb.load_text(&vec![9, 8, 7]);
    assert_eq!(&mb.text[0..3], &[9, 8, 7]);
    assert_eq!(mb.text[3], 0);
    assert_eq!(mb.text.len(), 2048);
    // A shorter rewrite only touches the front.
    mb.load_text(&vec![1]);
    assert_eq!(&mb.text[0..3], &[1, 8, 7]);
}

#[test]
fn load_data_keeps_tail() {
    let mut mb = Mailbox::new(false);
    mb.load_data(&vec![5, 6]);
    assert_eq!(&mb.data[0..3], &[5, 6, 0]);
    assert_eq!(mb.data.len(), 2048);
}

#[test]
fn signal_queues_kicks() {
    let mut mb = Mailbox::new(false);
    mb.signal();
    mb.signal();
    mb.signal();
    assert_eq!(mb.kick, 3);
}

#[test]
fn signal_wraps_at_limit() {
    let mut mb = Mailbox::new(false);
    mb.kick = u32::MAX;
    mb.signal();
    assert_eq!(mb.kick, 0);
}

#[test]
fn scenario_one_noop_program() {
    // Host writes a 4-byte no-op program and signals once; the engine
    // reports success for it.
    let mut mb = Mailbox::new(false);
    let mut d = Device::new();
    mb.load_text(&vec![0, 0, 0, 0]);
    mb.signal();
    assert_eq!(mb.kick, 1);
    let ev = cycle(&mut d, &mut mb, Ok(()));
    assert_eq!(ev, Some(TraceEvent::Success));
    assert_eq!(mb.requests, 1);
    assert_eq!(mb.errors, 0);
    assert_eq!(mb.kick, 0);
}

#[test]
fn scenario_two_kicks_before_wake() {
    // Host signals twice before the device wakes: both are processed on
    // consecutive cycles, none lost, and the interval resets to 1ms after
    // each.
    let mut mb = Mailbox::new(false);
    let mut d = Device::new();
    mb.signal();
    mb.signal();
    assert_eq!(mb.kick, 2);
    let ev1 = cycle(&mut d, &mut mb, Ok(()));
    assert_eq!(ev1, Some(TraceEvent::Success));
    assert_eq!(mb.kick, 1);
    assert_eq!(d.sched.sleep_ms, 1);
    let ev2 = cycle(&mut d, &mut mb, Ok(()));
    assert_eq!(ev2, Some(TraceEvent::Success));
    assert_eq!(mb.kick, 0);
    assert_eq!(d.sched.sleep_ms, 1);
    assert_eq!(mb.requests, 2);
    assert_eq!(mb.errors, 0);
}

#[test]
fn scenario_failure_then_success() {
    // The engine fails the first invocation and succeeds on the next: both
    // counters end at 1 and the slot still holds the first descriptor.
    let mut mb = Mailbox::new(false);
    let mut d = Device::new();
    let bad = FailureDesc { cause: 42, operand: Some(7) };
    mb.signal();
    mb.signal();
    let ev1 = cycle(&mut d, &mut mb, Err(bad));
    assert_eq!(ev1, Some(TraceEvent::Failure(bad)));
    assert_eq!(mb.failure, Some(bad));
    let ev2 = cycle(&mut d, &mut mb, Ok(()));
    assert_eq!(ev2, Some(TraceEvent::Success));
    assert_eq!(mb.errors, 1);
    assert_eq!(mb.requests, 1);
    assert_eq!(mb.failure, Some(bad));
}

#[test]
fn counters_account_for_every_kick() {
    // Three kicks fully processed: requests + errors == 3.
    let mut mb = Mailbox::new(false);
    let mut d = Device::new();
    for _ in 0..3 {
        mb.signal();
    }
    let f = FailureDesc { cause: 1, operand: None };
    let outcomes = [Ok(()), Err(f), Ok(())];
    for out in outcomes {
        let ev = cycle(&mut d, &mut mb, out);
        assert!(ev.is_some());
    }
    assert_eq!(mb.kick, 0);
    assert_eq!(mb.requests + mb.errors, 3);
}

#[test]
fn process_one_consumes_exactly_one_kick() {
    let mut mb = Mailbox::new(false);
    let mut d = Device::new();
    mb.signal();
    mb.signal();
    let ev = d.process_one(&mut mb, Ok(()));
    assert_eq!(ev, TraceEvent::Success);
    assert_eq!(mb.requests, 1);
    assert_eq!(mb.errors, 0);
    assert_eq!(mb.kick, 1);
    assert_eq!(d.sched.sleep_ms, 1);
}

#[test]
fn failure_slot_survives_many_successes() {
    let mut mb = Mailbox::new(false);
    let bad = FailureDesc { cause: 9, operand: None };
    mb.publish(Err(bad));
    for _ in 0..5 {
        mb.publish(Ok(()));
    }
    assert_eq!(mb.failure, Some(bad));
    assert_eq!(mb.errors, 1);
    assert_eq!(mb.requests, 5);
    // A later failure overwrites the slot.
    let worse = FailureDesc { cause: 10, operand: Some(2) };
    mb.publish(Err(worse));
    assert_eq!(mb.failure, Some(worse));
}

#[test]
fn counters_wrap_at_limit() {
    let mut mb = Mailbox::new(false);
    mb.requests = u32::MAX;
    mb.publish(Ok(()));
    assert_eq!(mb.requests, 0);
    mb.errors = u32::MAX;
    mb.publish(Err(FailureDesc { cause: 0, operand: None }));
    assert_eq!(mb.errors, 0);
}

#[test]
fn ready_flag_nets_around_sleep() {
    let mut mb = Mailbox::new(false);
    let d = Device::new();
    let before = mb.ready;
    let _ms = d.begin_wait(&mut mb);
    assert_eq!(mb.ready, 1);
    d.end_wait(&mut mb);
    assert_eq!(mb.ready, before);
    // The bracket nets even at the 32-bit wrap point.
    mb.ready = u32::MAX;
    let _ms = d.begin_wait(&mut mb);
    assert_eq!(mb.ready, 0);
    d.end_wait(&mut mb);
    assert_eq!(mb.ready, u32::MAX);
}

#[test]
fn interval_resets_after_kick_regardless_of_backoff() {
    let mut mb = Mailbox::new(false);
    let mut d = Device::new();
    assert_eq!(d.sched.sleep_ms, 250);
    // Back off for a while, then observe a kick: next interval is 1ms.
    for _ in 0..25 {
        let w = cycle(&mut d, &mut mb, Ok(()));
        assert_eq!(w, None);
    }
    mb.signal();
    let ev = cycle(&mut d, &mut mb, Ok(()));
    assert_eq!(ev, Some(TraceEvent::Success));
    assert_eq!(d.sched.sleep_ms, 1);
    assert_eq!(d.sched.sleeps, 0);
}

#[test]
fn idle_backoff_sequence_after_activity() {
    let mut mb = Mailbox::new(false);
    let mut d = Device::new();
    // One kick brings the interval to the 1ms minimum.
    mb.signal();
    cycle(&mut d, &mut mb, Ok(()));
    assert_eq!(d.sched.sleep_ms, 1);
    // With no further kicks: 1 -> 10 -> 100 -> 250, ten idle ticks each,
    // then capped at 250 for good.
    let mut intervals = Vec::new();
    for _ in 0..45 {
        cycle(&mut d, &mut mb, Ok(()));
        intervals.push(d.sched.sleep_ms);
    }
    for (i, ms) in intervals.iter().enumerate() {
        let expect = match i {
            0..=8 => 1,
            9..=18 => 10,
            19..=28 => 100,
            _ => 250,
        };
        assert_eq!(*ms, expect, "tick {}", i);
    }
}

#[test]
fn activation_resets_invocation_buffers() {
    let mut mb = Mailbox::new(false);
    let mut d = Device::new();
    d.stack[0] = Some(77);
    d.scratch[0] = 55;
    mb.signal();
    match d.poll(&mut mb) {
        Wake::Activate => {}
        Wake::Idle => panic!("a queued kick must activate the device"),
    }
    assert_eq!(d.stack.len(), 32);
    assert!(d.stack.iter().all(|s| s.is_none()));
    assert_eq!(d.scratch.len(), 256);
    assert!(d.scratch.iter().all(|b| *b == 0));
}
