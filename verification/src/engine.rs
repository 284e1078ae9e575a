//! The benchmark engine: the packet-size sweep and the per-phase protocol,
//! as a state machine over stream-operation outcomes.
//!
//! The engine owns every protocol decision — which operation to perform
//! next, what counts toward the measured total, when a phase may end, and
//! what a fatal outcome aborts — while the driver around it performs the
//! actual socket and console I/O. The driver asks the engine for an
//! [`Action`], performs it, and reports the outcome back as an [`Event`];
//! the engine never touches the stream itself.

use vstd::prelude::*;
use crate::role::Role;

verus! {

/// Number of packet sizes in the sweep.
pub const SWEEP_LEN: usize = 7;

/// Capacity of the send payload and of the receive scratch buffer, in bytes.
pub const BUFFER_CAPACITY: u64 = 16384;

/// The measurement window of one phase, in whole seconds.
pub const WINDOW_SECS: u64 = 5;

/// The receiver's per-read timeout, in whole seconds.
pub const READ_TIMEOUT_SECS: u64 = 1;

/// The fixed, ordered packet-size sweep. Both ends embed this identical
/// list; it is never negotiated on the wire.
pub open spec fn packet_sizes_spec() -> Seq<u64> {
    seq![32u64, 64u64, 1024u64, 1492u64, 1500u64, 2048u64, 16384u64]
}

/// The packet size at position `i` of the sweep.
pub fn packet_size(i: usize) -> (s: u64)
    requires
        i < SWEEP_LEN,
    ensures
        s == packet_sizes_spec()[i as int],
{
    if i == 0 { 32 } else if i == 1 { 64 } else if i == 2 { 1024 } else if i == 3 { 1492 }
    else if i == 4 { 1500 } else if i == 5 { 2048 } else { 16384 }
}

/// Whether the stream's no-delay option is enabled for a packet size:
/// on for small packets (under 1000 bytes), off for large ones.
pub open spec fn nodelay_for_spec(size: u64) -> bool {
    size < 1000
}

/// Returns the no-delay setting for a packet size.
pub fn nodelay_for(size: u64) -> (b: bool)
    ensures
        b == nodelay_for_spec(size),
{
    size < 1000
}

/// The console label of a role's rate line, pre-padded as printed.
pub open spec fn label_spec(r: Role) -> Seq<char> {
    if r is Sender {
        "Tx    "@
    } else {
        "Rx    "@
    }
}

/// Returns the label printed on a role's rate line.
pub fn role_label(r: Role) -> (s: &'static str)
    ensures
        s@ == label_spec(r),
{
    match r {
        Role::Sender => "Tx    ",
        Role::Receiver => "Rx    ",
    }
}

/// The outcome of one stream or console operation, reported back by the
/// driver that performed it.
#[derive(Clone, Copy, Debug, PartialEq, Eq, Structural)]
pub enum Event {
    /// An option change or a console write completed.
    Completed,
    /// A stream write moved this many bytes (possibly fewer than asked).
    Sent(u64),
    /// A stream read delivered this many bytes.
    Received(u64),
    /// The operation hit a would-block or timeout condition and moved
    /// nothing.
    Blocked,
    /// The clock check found the phase window already over, so the transfer
    /// operation was not performed.
    Expired,
    /// The operation failed with a fatal error.
    Failed,
}

/// The next operation the driver must perform for the engine.
#[derive(Clone, Copy, Debug, PartialEq, Eq, Structural)]
pub enum Action {
    /// Print the size header, then set the stream's no-delay option for the
    /// given packet size to the given flag.
    Configure(u64, bool),
    /// Disable the stream's read timeout, so the later marker wait blocks
    /// indefinitely (sender setup).
    DisableReadTimeout,
    /// Set the stream's read timeout to one second, keeping the deadline
    /// check responsive (receiver setup).
    EnableReadTimeout,
    /// If the window has time left, write the first so-many bytes of the
    /// payload and report what the write returned; otherwise report expiry.
    Send(u64),
    /// If the window has time left, read into the scratch buffer and report
    /// what the read returned; otherwise report expiry.
    Receive,
    /// Format and print the rate line: so many bytes moved by this role.
    Report(u64, Role),
    /// Read with the one-second timeout and discard whatever arrives.
    Drain,
    /// Write the four-byte completion marker once.
    SendMarker,
    /// Read once, blocking without a timeout, to await the peer's
    /// completion marker; the content is never inspected.
    AwaitMarker,
    /// Print the blank line separating two packet sizes.
    Separate,
    /// The sweep is complete; nothing further to do.
    Finish,
    /// A fatal error: abort the run.
    Abort,
}

/// Where the engine stands within the current packet size.
#[derive(Clone, Copy, Debug, PartialEq, Eq, Structural)]
pub enum Stage {
    /// Waiting for the no-delay option to be set for the current size.
    Configuring,
    /// Waiting for the current role's read-timeout setup.
    Preparing,
    /// Inside the timed window, transferring and counting bytes.
    Measuring,
    /// Waiting for the rate line of the finished window to be printed.
    Reporting,
    /// Receiver only: discarding residual bytes of the finished window.
    Draining,
    /// Receiver only: waiting for the completion-marker write.
    Acknowledging,
    /// Sender only: blocked until the peer's completion marker arrives.
    AwaitingMarker,
    /// Waiting for the separator line between two sizes to be printed.
    Separating,
    /// The whole sweep finished successfully.
    Finished,
    /// A fatal error ended the run.
    Failed,
}

/// The benchmark engine's state: position in the sweep, the role pair of
/// this end, the stage within the current size, and the running byte count
/// of the current window.
#[derive(Clone, Copy, Debug, PartialEq, Eq, Structural)]
pub struct Engine {
    /// Position in the packet-size sweep.
    pub size_idx: usize,
    /// Which phase of the current size runs: 0 for the first role, 1 for
    /// the second.
    pub phase_idx: usize,
    /// The role this end plays first for every size.
    pub phase1: Role,
    /// The role this end plays second for every size.
    pub phase2: Role,
    /// The stage within the current size.
    pub stage: Stage,
    /// Bytes moved so far within the current measuring window.
    pub bytes: u64,
}

impl Engine {
    /// The role of the phase the engine currently runs.
    pub open spec fn current_role_spec(self) -> Role {
        if self.phase_idx == 0 {
            self.phase1
        } else {
            self.phase2
        }
    }

    /// Well-formedness: the role pair is complementary, the indices stay in
    /// range while the run is live, and the stages reserved for one role are
    /// only ever held by it.
    pub open spec fn wf(self) -> bool {
        &&& self.phase2 == self.phase1.complement_spec()
        &&& self.phase_idx < 2
        &&& (self.stage is Finished || self.stage is Failed || self.size_idx < SWEEP_LEN)
        &&& (self.stage is Draining || self.stage is Acknowledging)
            ==> self.current_role_spec() is Receiver
        &&& self.stage is AwaitingMarker ==> self.current_role_spec() is Sender
    }

    /// A fatal outcome: the run halts in the failed stage.
    pub open spec fn fail_spec(self) -> (Engine, Action) {
        (Engine { stage: Stage::Failed, ..self }, Action::Abort)
    }

    /// Entering the current phase: the byte count restarts at zero and the
    /// role's read-timeout setup is requested.
    pub open spec fn enter_phase_spec(self) -> (Engine, Action) {
        (
            Engine { stage: Stage::Preparing, bytes: 0, ..self },
            if self.current_role_spec() is Sender {
                Action::DisableReadTimeout
            } else {
                Action::EnableReadTimeout
            },
        )
    }

    /// The transfer operation of the current role at the current size.
    pub open spec fn transfer_action_spec(self) -> Action {
        if self.current_role_spec() is Sender {
            Action::Send(packet_sizes_spec()[self.size_idx as int])
        } else {
            Action::Receive
        }
    }

    /// The byte count after a transfer that moved `n` bytes, saturating at
    /// the counter's maximum.
    pub open spec fn counted_spec(self, n: u64) -> u64 {
        if self.bytes + n <= u64::MAX {
            (self.bytes + n) as u64
        } else {
            u64::MAX
        }
    }

    /// A finished phase: the second phase of this size begins, or the size
    /// separator is due.
    pub open spec fn advance_spec(self) -> (Engine, Action) {
        if self.phase_idx == 0 {
            Engine { phase_idx: 1, ..self }.enter_phase_spec()
        } else {
            (Engine { stage: Stage::Separating, ..self }, Action::Separate)
        }
    }

    /// After the separator: the next size is configured, or the sweep is
    /// complete.
    pub open spec fn next_size_spec(self) -> (Engine, Action) {
        if self.size_idx + 1 == SWEEP_LEN {
            (
                Engine { stage: Stage::Finished, size_idx: (self.size_idx + 1) as usize, ..self },
                Action::Finish,
            )
        } else {
            (
                Engine {
                    stage: Stage::Configuring,
                    size_idx: (self.size_idx + 1) as usize,
                    phase_idx: 0,
                    ..self
                },
                Action::Configure(
                    packet_sizes_spec()[self.size_idx + 1],
                    nodelay_for_spec(packet_sizes_spec()[self.size_idx + 1]),
                ),
            )
        }
    }
}

/// The transition relation of the engine: from a state and the outcome of
/// the operation last performed to the next state and the next operation.
/// An outcome that the protocol cannot produce in the given stage is
/// treated as fatal.
pub open spec fn step_spec(pre: Engine, ev: Event) -> (Engine, Action) {
    match pre.stage {
        Stage::Configuring => match ev {
            Event::Completed => pre.enter_phase_spec(),
            _ => pre.fail_spec(),
        },
        Stage::Preparing => match ev {
            Event::Completed => (
                Engine { stage: Stage::Measuring, bytes: 0, ..pre },
                pre.transfer_action_spec(),
            ),
            _ => pre.fail_spec(),
        },
        Stage::Measuring => match ev {
            Event::Sent(n) => if pre.current_role_spec() is Sender {
                (Engine { bytes: pre.counted_spec(n), ..pre }, pre.transfer_action_spec())
            } else {
                pre.fail_spec()
            },
            Event::Received(n) => if pre.current_role_spec() is Receiver {
                (Engine { bytes: pre.counted_spec(n), ..pre }, pre.transfer_action_spec())
            } else {
                pre.fail_spec()
            },
            Event::Blocked => (pre, pre.transfer_action_spec()),
            Event::Expired => (
                Engine { stage: Stage::Reporting, ..pre },
                Action::Report(pre.bytes, pre.current_role_spec()),
            ),
            _ => pre.fail_spec(),
        },
        Stage::Reporting => match ev {
            Event::Completed => if pre.current_role_spec() is Sender {
                (Engine { stage: Stage::AwaitingMarker, ..pre }, Action::AwaitMarker)
            } else {
                (Engine { stage: Stage::Draining, ..pre }, Action::Drain)
            },
            _ => pre.fail_spec(),
        },
        Stage::Draining => match ev {
            Event::Received(_) => (pre, Action::Drain),
            Event::Blocked | Event::Failed => (
                Engine { stage: Stage::Acknowledging, ..pre },
                Action::SendMarker,
            ),
            _ => pre.fail_spec(),
        },
        Stage::Acknowledging => match ev {
            Event::Sent(_) => pre.advance_spec(),
            _ => pre.fail_spec(),
        },
        Stage::AwaitingMarker => match ev {
            Event::Received(_) => pre.advance_spec(),
            _ => pre.fail_spec(),
        },
        Stage::Separating => match ev {
            Event::Completed => pre.next_size_spec(),
            _ => pre.fail_spec(),
        },
        Stage::Finished => (pre, Action::Finish),
        Stage::Failed => (pre, Action::Abort),
    }
}

/// The state a fresh engine starts in.
pub open spec fn init_spec(phase1: Role, phase2: Role) -> Engine {
    Engine {
        size_idx: 0,
        phase_idx: 0,
        phase1: phase1,
        phase2: phase2,
        stage: Stage::Configuring,
        bytes: 0,
    }
}

impl Engine {
    /// A fresh engine for one run over an open stream, together with the
    /// first operation: configure the no-delay option for the first size.
    /// The role pair must be complementary; the peer runs the swapped pair.
    pub fn new(phase1: Role, phase2: Role) -> (r: (Engine, Action))
        requires
            phase2 == phase1.complement_spec(),
        ensures
            r.0 == init_spec(phase1, phase2),
            r.0.wf(),
            r.1 == Action::Configure(
                packet_sizes_spec()[0],
                nodelay_for_spec(packet_sizes_spec()[0]),
            ),
    {
        let e = Engine {
            size_idx: 0,
            phase_idx: 0,
            phase1: phase1,
            phase2: phase2,
            stage: Stage::Configuring,
            bytes: 0,
        };
        let size = packet_size(0);
        (e, Action::Configure(size, nodelay_for(size)))
    }

    /// The role of the phase the engine currently runs.
    pub fn current_role(&self) -> (r: Role)
        ensures
            r == self.current_role_spec(),
    {
        if self.phase_idx == 0 {
            self.phase1
        } else {
            self.phase2
        }
    }

    /// Marks the run failed.
    fn fail(&mut self) -> (a: Action)
        ensures
            *final(self) == old(self).fail_spec().0,
            a == old(self).fail_spec().1,
    {
        self.stage = Stage::Failed;
        Action::Abort
    }

    /// Begins the current phase: zero count, role setup requested.
    fn enter_phase(&mut self) -> (a: Action)
        ensures
            *final(self) == old(self).enter_phase_spec().0,
            a == old(self).enter_phase_spec().1,
    {
        let role = self.current_role();
        self.stage = Stage::Preparing;
        self.bytes = 0;
        match role {
            Role::Sender => Action::DisableReadTimeout,
            Role::Receiver => Action::EnableReadTimeout,
        }
    }

    /// The transfer operation of the current role at the current size.
    fn transfer_action(&self) -> (a: Action)
        requires
            self.size_idx < SWEEP_LEN,
        ensures
            a == self.transfer_action_spec(),
    {
        match self.current_role() {
            Role::Sender => Action::Send(packet_size(self.size_idx)),
            Role::Receiver => Action::Receive,
        }
    }

    /// Adds a transfer's byte count to the window total, saturating.
    fn count(&mut self, n: u64)
        ensures
            *final(self) == (Engine { bytes: old(self).counted_spec(n), ..*old(self) }),
    {
        if n <= u64::MAX - self.bytes {
            self.bytes = self.bytes + n;
        } else {
            self.bytes = u64::MAX;
        }
    }

    /// Ends the current phase: the second phase begins or the separator is
    /// due.
    fn advance(&mut self) -> (a: Action)
        requires
            old(self).size_idx < SWEEP_LEN,
        ensures
            *final(self) == old(self).advance_spec().0,
            a == old(self).advance_spec().1,
    {
        if self.phase_idx == 0 {
            self.phase_idx = 1;
            self.enter_phase()
        } else {
            self.stage = Stage::Separating;
            Action::Separate
        }
    }

    /// Moves past the separator to the next size or to completion.
    fn next_size(&mut self) -> (a: Action)
        requires
            old(self).size_idx < SWEEP_LEN,
        ensures
            *final(self) == old(self).next_size_spec().0,
            a == old(self).next_size_spec().1,
    {
        if self.size_idx + 1 == SWEEP_LEN {
            self.size_idx = self.size_idx + 1;
            self.stage = Stage::Finished;
            Action::Finish
        } else {
            self.size_idx = self.size_idx + 1;
            self.phase_idx = 0;
            self.stage = Stage::Configuring;
            let size = packet_size(self.size_idx);
            Action::Configure(size, nodelay_for(size))
        }
    }

    /// One protocol step: consumes the outcome of the operation last
    /// performed and yields the next operation. The engine follows
    /// `step_spec` exactly and stays well-formed.
    pub fn step(&mut self, ev: Event) -> (a: Action)
        requires
            old(self).wf(),
        ensures
            *final(self) == step_spec(*old(self), ev).0,
            a == step_spec(*old(self), ev).1,
            final(self).wf(),
    {
        match self.stage {
            Stage::Configuring => match ev {
                Event::Completed => self.enter_phase(),
                _ => self.fail(),
            },
            Stage::Preparing => match ev {
                Event::Completed => {
                    let a = self.transfer_action();
                    self.stage = Stage::Measuring;
                    self.bytes = 0;
                    a
                },
                _ => self.fail(),
            },
            Stage::Measuring => match ev {
                Event::Sent(n) => {
                    if matches!(self.current_role(), Role::Sender) {
                        self.count(n);
                        self.transfer_action()
                    } else {
                        self.fail()
                    }
                },
                Event::Received(n) => {
                    if matches!(self.current_role(), Role::Receiver) {
                        self.count(n);
                        self.transfer_action()
                    } else {
                        self.fail()
                    }
                },
                Event::Blocked => self.transfer_action(),
                Event::Expired => {
                    let role = self.current_role();
                    let a = Action::Report(self.bytes, role);
                    self.stage = Stage::Reporting;
                    a
                },
                _ => self.fail(),
            },
            Stage::Reporting => match ev {
                Event::Completed => {
                    if matches!(self.current_role(), Role::Sender) {
                        self.stage = Stage::AwaitingMarker;
                        Action::AwaitMarker
                    } else {
                        self.stage = Stage::Draining;
                        Action::Drain
                    }
                },
                _ => self.fail(),
            },
            Stage::Draining => match ev {
                Event::Received(_) => Action::Drain,
                Event::Blocked | Event::Failed => {
                    self.stage = Stage::Acknowledging;
                    Action::SendMarker
                },
                _ => self.fail(),
            },
            Stage::Acknowledging => match ev {
                Event::Sent(_) => self.advance(),
                _ => self.fail(),
            },
            Stage::AwaitingMarker => match ev {
                Event::Received(_) => self.advance(),
                _ => self.fail(),
            },
            Stage::Separating => match ev {
                Event::Completed => self.next_size(),
                _ => self.fail(),
            },
            Stage::Finished => Action::Finish,
            Stage::Failed => Action::Abort,
        }
    }
}

/// The bytes of the completion marker: the ASCII literal `done`. The
/// receiver sends it once after its drain; the sender's blocking read waits
/// for it but never inspects its content — only its arrival matters.
pub open spec fn marker_bytes() -> Seq<u8> {
    seq![100u8, 111u8, 110u8, 101u8]
}

/// The four-byte completion marker the receiver writes to end a phase.
pub fn completion_marker() -> (m: [u8; 4])
    ensures
        m@ == marker_bytes(),
{
    let m: [u8; 4] = [100u8, 111u8, 110u8, 101u8];
    proof {
        assert(m@ =~= marker_bytes());
    }
    m
}

/// Relies on `rand::fill` for `u8` slices: it overwrites every element of
/// the slice in place with random bytes from the thread-local generator,
/// so the vector's length is unchanged. The content is irrelevant here.
#[verifier::external_body]
fn fill_random(buf: &mut Vec<u8>)
    ensures
        final(buf)@.len() == old(buf)@.len(),
{
    rand::fill(buf.as_mut_slice());
}

/// The reusable pseudorandom send payload: one buffer as large as the
/// largest swept packet, filled once before the run and sliced per packet
/// afterwards, so the hot loop never allocates. Only its length matters.
pub fn make_payload() -> (v: Vec<u8>)
    ensures
        v@.len() == BUFFER_CAPACITY,
{
    let mut buf: Vec<u8> = Vec::new();
    let mut i: usize = 0;
    while i < 16384
        invariant
            buf@.len() == i,
            i <= 16384,
        decreases 16384 - i,
    {
        buf.push(0u8);
        i = i + 1;
    }
    fill_random(&mut buf);
    buf
}

/// Every size of the sweep fits the shared buffers: each is at least the
/// smallest swept packet and at most the buffer capacity, and the extremes
/// 32 and 16384 are themselves swept. A send of any swept size therefore
/// truncates nothing, and the capacity-sized scratch buffer suffices for
/// every receive.
pub proof fn lemma_sizes_fit_buffer()
    ensures
        packet_sizes_spec().len() == SWEEP_LEN,
        forall|i: int|
            0 <= i < SWEEP_LEN ==> 32 <= #[trigger] packet_sizes_spec()[i] <= BUFFER_CAPACITY,
        packet_sizes_spec()[0] == 32,
        packet_sizes_spec()[SWEEP_LEN - 1] == BUFFER_CAPACITY,
{
    assert forall|i: int| 0 <= i < SWEEP_LEN implies 32 <= #[trigger] packet_sizes_spec()[i]
        <= BUFFER_CAPACITY by {
        if i == 0 { } else if i == 1 { } else if i == 2 { } else if i == 3 { } else if i == 4 {
        } else if i == 5 { } else { assert(i == 6); }
    }
}

/// Every send the engine ever asks for is one whole swept packet: its
/// length never exceeds what the payload buffer holds.
pub proof fn lemma_send_within_capacity(s: Engine, ev: Event)
    requires
        s.wf(),
    ensures
        step_spec(s, ev).1 matches Action::Send(n) ==> 32 <= n <= BUFFER_CAPACITY,
{
    lemma_sizes_fit_buffer();
}

/// One step keeps the engine well-formed, whatever the outcome, and never
/// changes the role pair: the two roles are fixed for the whole run.
pub proof fn lemma_step_preserves_wf(s: Engine, ev: Event)
    requires
        s.wf(),
    ensures
        step_spec(s, ev).0.wf(),
        step_spec(s, ev).0.phase1 == s.phase1,
        step_spec(s, ev).0.phase2 == s.phase2,
{
}

/// The engine after consuming a whole sequence of outcomes in order.
pub open spec fn run_steps(e: Engine, evs: Seq<Event>) -> Engine
    decreases evs.len(),
{
    if evs.len() == 0 {
        e
    } else {
        run_steps(step_spec(e, evs[0]).0, evs.skip(1))
    }
}

/// However a run unfolds — whatever outcomes arrive, in whatever order —
/// the engine stays well-formed and keeps its role pair. Two paired
/// endpoints therefore still satisfy the complementarity of
/// `lemma_paired_engines_complementary` at any pair of reachable states
/// with equal phase positions.
pub proof fn lemma_any_run_preserves_wf(e: Engine, evs: Seq<Event>)
    requires
        e.wf(),
    ensures
        run_steps(e, evs).wf(),
        run_steps(e, evs).phase1 == e.phase1,
        run_steps(e, evs).phase2 == e.phase2,
    decreases evs.len(),
{
    if evs.len() > 0 {
        lemma_step_preserves_wf(e, evs[0]);
        lemma_any_run_preserves_wf(step_spec(e, evs[0]).0, evs.skip(1));
    }
}

/// The synchronization barrier: a sender that has issued its blocking
/// marker wait moves on to further benchmark work only when that read
/// returns; any other outcome is fatal and halts the run. The engine can
/// therefore never begin the next phase or the next packet size while the
/// peer is still draining.
pub proof fn lemma_sender_advances_only_on_marker(s: Engine, ev: Event)
    requires
        s.wf(),
        s.stage is AwaitingMarker,
    ensures
        ev matches Event::Received(_) ==> step_spec(s, ev) == s.advance_spec(),
        !(ev matches Event::Received(_)) ==> step_spec(s, ev).0.stage is Failed
            && step_spec(s, ev).1 is Abort,
{
}

/// A failed engine stays failed: no event revives the run, and the only
/// action it ever asks for again is the abort.
pub proof fn lemma_failure_is_final(s: Engine, ev: Event)
    requires
        s.stage is Failed,
    ensures
        step_spec(s, ev).0 == s,
        step_spec(s, ev).1 is Abort,
{
}

/// A finished engine stays finished and asks for nothing further.
pub proof fn lemma_finish_is_final(s: Engine, ev: Event)
    requires
        s.stage is Finished,
    ensures
        step_spec(s, ev).0 == s,
        step_spec(s, ev).1 is Finish,
{
}

/// No cross-phase leakage: the window count changes only inside a measuring
/// window on a transfer outcome of the window's own role; every window
/// starts its count at zero; whatever the drain loop swallows after the
/// deadline is never counted; and the reported total is exactly the count
/// standing when the window expired.
pub proof fn lemma_no_cross_phase_leakage(s: Engine, ev: Event)
    requires
        s.wf(),
    ensures
        s.stage is Draining ==> step_spec(s, ev).0.bytes == s.bytes,
        step_spec(s, ev).0.bytes != s.bytes ==> (s.stage is Measuring && (ev matches Event::Sent(
            _,
        ) || ev matches Event::Received(_))) || step_spec(s, ev).0.bytes == 0,
        step_spec(s, ev).0.stage is Measuring && !(s.stage is Measuring) ==> step_spec(
            s,
            ev,
        ).0.bytes == 0,
        s.stage is Measuring && ev is Expired ==> step_spec(s, ev).1 == Action::Report(
            s.bytes,
            s.current_role_spec(),
        ),
{
}

/// Expiry ends the window at once: the engine's next request after the
/// driver reports the deadline passed is the rate report, never another
/// transfer. The measured span thus exceeds the window by at most the
/// driver's final clock check and report, whatever transient outcomes
/// occurred during the window.
pub proof fn lemma_expiry_stops_transfer(s: Engine, ev: Event)
    requires
        s.wf(),
        s.stage is Measuring,
        ev is Expired,
    ensures
        step_spec(s, ev).0.stage is Reporting,
        step_spec(s, ev).1 == Action::Report(s.bytes, s.current_role_spec()),
{
}

/// A transient would-block or timeout outcome inside the window is absorbed
/// silently: nothing is counted, nothing fails, and the engine retries the
/// same transfer immediately.
pub proof fn lemma_transient_absorbed(s: Engine, ev: Event)
    requires
        s.wf(),
        s.stage is Measuring,
        ev is Blocked,
    ensures
        step_spec(s, ev).0 == s,
        step_spec(s, ev).1 == s.transfer_action_spec(),
{
}

/// Role complementarity across the two paired endpoints: engines built from
/// swapped role pairs play complementary roles whenever they stand in the
/// same phase of any size — when one end sends, the other receives.
pub proof fn lemma_paired_engines_complementary(a: Engine, b: Engine)
    requires
        a.wf(),
        b.wf(),
        a.phase1 == b.phase2,
        a.phase2 == b.phase1,
        a.phase_idx == b.phase_idx,
    ensures
        a.current_role_spec() == b.current_role_spec().complement_spec(),
{
}

} // verus!
