use netbench::engine::{completion_marker, make_payload, Action, Engine, Event, Stage};
use netbench::role::Role;

/// Drives one sender phase from the point where the read-timeout setup has
/// just been requested: confirms the setup, feeds the given write outcomes,
/// expires the window, and confirms the report. Leaves the engine waiting
/// for the peer's marker.
fn run_sender_window(e: &mut Engine, size: u64, writes: &[u64]) -> u64 {
    assert_eq!(e.step(Event::Completed), Action::Send(size));
    let mut total: u64 = 0;
    for &w in writes {
        assert_eq!(e.step(Event::Sent(w)), Action::Send(size));
        total += w;
    }
    assert_eq!(e.step(Event::Expired), Action::Report(total, Role::Sender));
    assert_eq!(e.step(Event::Completed), Action::AwaitMarker);
    total
}

/// Drives one receiver phase from the point where the read-timeout setup
/// has just been requested, up to and including the report; the drain and
/// the marker are left to the caller.
fn run_receiver_window(e: &mut Engine, reads: &[u64]) -> u64 {
    assert_eq!(e.step(Event::Completed), Action::Receive);
    let mut total: u64 = 0;
    for &r in reads {
        assert_eq!(e.step(Event::Received(r)), Action::Receive);
        total += r;
    }
    assert_eq!(e.step(Event::Expired), Action::Report(total, Role::Receiver));
    total
}

#[test]
fn full_size_cycle() {
    let (mut e, first) = Engine::new(Role::Sender, Role::Receiver);
    assert_eq!(first, Action::Configure(32, true));

    // Configure done: the sender phase of the first size begins.
    assert_eq!(e.step(Event::Completed), Action::DisableReadTimeout);
    assert_eq!(e.step(Event::Completed), Action::Send(32));
    assert_eq!(e.step(Event::Sent(32)), Action::Send(32));
    // A would-block outcome is absorbed and the write retried.
    assert_eq!(e.step(Event::Blocked), Action::Send(32));
    // A partial write counts what it moved.
    assert_eq!(e.step(Event::Sent(16)), Action::Send(32));
    assert_eq!(e.step(Event::Expired), Action::Report(48, Role::Sender));
    assert_eq!(e.step(Event::Completed), Action::AwaitMarker);
    // The peer's marker arrives: the receiver phase of the same size begins.
    assert_eq!(e.step(Event::Received(4)), Action::EnableReadTimeout);
    assert_eq!(e.step(Event::Completed), Action::Receive);
    assert_eq!(e.step(Event::Received(100)), Action::Receive);
    assert_eq!(e.step(Event::Blocked), Action::Receive);
    assert_eq!(e.step(Event::Received(50)), Action::Receive);
    assert_eq!(e.step(Event::Expired), Action::Report(150, Role::Receiver));
    assert_eq!(e.step(Event::Completed), Action::Drain);
    // Residual bytes of the finished window are drained and discarded.
    assert_eq!(e.step(Event::Received(500)), Action::Drain);
    assert_eq!(e.step(Event::Received(20)), Action::Drain);
    assert_eq!(e.step(Event::Blocked), Action::SendMarker);
    assert_eq!(e.step(Event::Sent(4)), Action::Separate);
    // Past the separator: the next size is configured.
    assert_eq!(e.step(Event::Completed), Action::Configure(64, true));
}

#[test]
fn sender_blocks_until_marker_arrives() {
    let (mut e, _) = Engine::new(Role::Sender, Role::Receiver);
    assert_eq!(e.step(Event::Completed), Action::DisableReadTimeout);
    run_sender_window(&mut e, 32, &[32, 32]);
    // The engine stands at the synchronization barrier.
    assert_eq!(e.stage, Stage::AwaitingMarker);
    // Only a returned read advances it; the next phase's setup follows.
    assert_eq!(e.step(Event::Received(1)), Action::EnableReadTimeout);
    assert_eq!(e.stage, Stage::Preparing);
}

#[test]
fn sender_barrier_fails_on_any_other_outcome() {
    let (mut e, _) = Engine::new(Role::Sender, Role::Receiver);
    assert_eq!(e.step(Event::Completed), Action::DisableReadTimeout);
    run_sender_window(&mut e, 32, &[32]);
    // An error on the blocking marker read is fatal: the run halts rather
    // than advancing to the next phase.
    assert_eq!(e.step(Event::Failed), Action::Abort);
    assert_eq!(e.stage, Stage::Failed);
    // Failure is final: no later outcome revives the run.
    assert_eq!(e.step(Event::Received(4)), Action::Abort);
    assert_eq!(e.stage, Stage::Failed);
}

#[test]
fn drained_bytes_never_reach_the_next_window() {
    let (mut e, first) = Engine::new(Role::Receiver, Role::Sender);
    assert_eq!(first, Action::Configure(32, true));
    assert_eq!(e.step(Event::Completed), Action::EnableReadTimeout);
    let counted = run_receiver_window(&mut e, &[64, 64]);
    assert_eq!(counted, 128);
    assert_eq!(e.step(Event::Completed), Action::Drain);
    // Late bytes of the finished window arrive during the drain.
    assert_eq!(e.step(Event::Received(4096)), Action::Drain);
    assert_eq!(e.step(Event::Blocked), Action::SendMarker);
    assert_eq!(e.step(Event::Sent(4)), Action::DisableReadTimeout);
    // The sender window that follows starts its count at zero: the 4096
    // drained bytes were discarded, not carried over.
    assert_eq!(e.bytes, 0);
    assert_eq!(e.step(Event::Completed), Action::Send(32));
    assert_eq!(e.step(Event::Expired), Action::Report(0, Role::Sender));
}

#[test]
fn window_count_starts_at_zero_each_phase() {
    let (mut e, _) = Engine::new(Role::Sender, Role::Receiver);
    assert_eq!(e.step(Event::Completed), Action::DisableReadTimeout);
    run_sender_window(&mut e, 32, &[32, 32, 32]);
    assert_eq!(e.step(Event::Received(4)), Action::EnableReadTimeout);
    // The receiver window of the same size reports only its own bytes.
    assert_eq!(run_receiver_window(&mut e, &[10]), 10);
}

#[test]
fn expiry_ends_the_window_immediately() {
    let (mut e, _) = Engine::new(Role::Sender, Role::Receiver);
    assert_eq!(e.step(Event::Completed), Action::DisableReadTimeout);
    assert_eq!(e.step(Event::Completed), Action::Send(32));
    // However many transient outcomes occurred, the first expired clock
    // check yields the report, never another transfer.
    assert_eq!(e.step(Event::Blocked), Action::Send(32));
    assert_eq!(e.step(Event::Blocked), Action::Send(32));
    assert_eq!(e.step(Event::Expired), Action::Report(0, Role::Sender));
    assert_eq!(e.stage, Stage::Reporting);
}

#[test]
fn fatal_transfer_error_aborts() {
    let (mut e, _) = Engine::new(Role::Sender, Role::Receiver);
    assert_eq!(e.step(Event::Completed), Action::DisableReadTimeout);
    assert_eq!(e.step(Event::Completed), Action::Send(32));
    assert_eq!(e.step(Event::Failed), Action::Abort);
    assert_eq!(e.stage, Stage::Failed);
}

#[test]
fn whole_sweep_visits_every_size_and_finishes() {
    let sizes: [u64; 7] = [32, 64, 1024, 1492, 1500, 2048, 16384];
    let nodelay: [bool; 7] = [true, true, false, false, false, false, false];
    let (mut e, mut next) = Engine::new(Role::Sender, Role::Receiver);
    for i in 0..7 {
        assert_eq!(next, Action::Configure(sizes[i], nodelay[i]));
        assert_eq!(e.step(Event::Completed), Action::DisableReadTimeout);
        let after = run_one_size_from_prepare(&mut e, sizes[i]);
        next = after;
    }
    assert_eq!(next, Action::Finish);
    assert_eq!(e.stage, Stage::Finished);
    // Finished is final.
    assert_eq!(e.step(Event::Completed), Action::Finish);
}

/// Like `run_one_size`, from the point where the first phase's setup has
/// already been requested.
fn run_one_size_from_prepare(e: &mut Engine, size: u64) -> Action {
    run_sender_window(e, size, &[size, size]);
    assert_eq!(e.step(Event::Received(4)), Action::EnableReadTimeout);
    run_receiver_window(e, &[size]);
    assert_eq!(e.step(Event::Completed), Action::Drain);
    assert_eq!(e.step(Event::Blocked), Action::SendMarker);
    assert_eq!(e.step(Event::Sent(4)), Action::Separate);
    e.step(Event::Completed)
}

#[test]
fn boundary_sizes_fit_the_payload() {
    // The smallest and the largest swept sizes both complete a full cycle,
    // and every send fits the shared payload buffer exactly once filled.
    let payload = make_payload();
    assert_eq!(payload.len(), 16384);
    let (mut e, first) = Engine::new(Role::Sender, Role::Receiver);
    assert_eq!(first, Action::Configure(32, true));
    assert_eq!(e.step(Event::Completed), Action::DisableReadTimeout);
    match e.step(Event::Completed) {
        Action::Send(n) => assert!(n as usize <= payload.len()),
        a => panic!("expected a send, got {:?}", a),
    }
    // Drive the engine to the last size and check its send as well.
    let (mut e2, _) = Engine::new(Role::Sender, Role::Receiver);
    let mut next = Action::Configure(32, true);
    for i in 0..6 {
        let sizes: [u64; 7] = [32, 64, 1024, 1492, 1500, 2048, 16384];
        assert_eq!(e2.step(Event::Completed), Action::DisableReadTimeout);
        next = run_one_size_from_prepare(&mut e2, sizes[i]);
    }
    assert_eq!(next, Action::Configure(16384, false));
    assert_eq!(e2.step(Event::Completed), Action::DisableReadTimeout);
    assert_eq!(e2.step(Event::Completed), Action::Send(16384));
    assert!(16384 <= payload.len());
}

#[test]
fn payload_is_filled_not_left_blank() {
    // The payload's content is irrelevant to the protocol, but it must have
    // been filled by the generator: 16384 bytes left all zero would mean
    // the fill never ran.
    let payload = make_payload();
    assert!(payload.iter().any(|&b| b != 0));
}

#[test]
fn marker_is_the_ascii_word_done() {
    assert_eq!(&completion_marker(), b"done");
}

#[test]
fn saturating_count() {
    let (mut e, _) = Engine::new(Role::Sender, Role::Receiver);
    assert_eq!(e.step(Event::Completed), Action::DisableReadTimeout);
    assert_eq!(e.step(Event::Completed), Action::Send(32));
    assert_eq!(e.step(Event::Sent(u64::MAX)), Action::Send(32));
    assert_eq!(e.step(Event::Sent(7)), Action::Send(32));
    assert_eq!(e.step(Event::Expired), Action::Report(u64::MAX, Role::Sender));
}
