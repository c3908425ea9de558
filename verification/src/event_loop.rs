//! The event-loop core.
//!
//! One `next_event` call of a driver is a sequence of steps. Each step the
//! driver asks `request_region` how many bytes are still missing from the
//! region the decoder wants, races one read of at most that many bytes
//! against a timer armed at `next_deadline_ms`, and reports what it observed
//! to `handle_outcome`, which folds the observation into the loop state and
//! either finishes the call with an event or asks the driver to keep waiting.
//!
//! Timer semantics: both deadlines are anchored at the epoch — the moment the
//! last region was completely filled (or the loop was created). Crossing the
//! 10 s mark emits `Timeout10` once per epoch and leaves the epoch alone, so
//! continued silence meets the 30 s mark of the same epoch; crossing 30 s
//! emits `Timeout30` and terminates the loop for good. A completed region
//! moves the epoch to the fill time and rearms the 10 s signal. When a read
//! and a deadline are due at once, the read wins: a just-arrived message is
//! never masked by a timeout.
//!
//! Policy decisions left open by the protocol description, fixed here: end of
//! stream and transport failures are reported as `DecodeError`-class events
//! and leave the loop active, and a decode failure preserves the epoch.

use vstd::prelude::*;

use crate::decoder::DecodeKind;
use crate::decoder::Decoder;

verus! {

/// Milliseconds of silence after which the soft inactivity signal fires.
pub const DELAY10_MS: u64 = 10000;

/// Milliseconds of silence after which the loop declares the peer dead.
pub const DELAY30_MS: u64 = 30000;

/// Why a `DecodeError` event was emitted.
pub enum DecodeFailure<E> {
    /// The decoder rejected the buffered bytes.
    Framing(E),
    /// The byte source reported end of stream: no message can ever complete.
    EndOfStream,
    /// The byte source failed with a transport error.
    Transport,
}

/// One discrete outcome of the loop.
pub enum Event<M, E> {
    /// A complete message was decoded.
    Message(M),
    /// 10 s passed since the last completely received region.
    Timeout10,
    /// 30 s passed since the last completely received region; the loop is
    /// terminated and will never produce an event again.
    Timeout30,
    /// Decoding cannot proceed: a framing error, end of stream, or a
    /// transport failure. The loop stays active.
    DecodeError(DecodeFailure<E>),
}

/// What the driver observed while racing one read against the armed deadline.
pub enum ReadOutcome {
    /// `bytes` arrived, the last of them at time `now_ms`.
    Data { bytes: Vec<u8>, now_ms: u64 },
    /// The source reported end of stream.
    Eof,
    /// The source failed with a transport error.
    ReadFailed,
    /// Nothing arrived and the clock reached `now_ms`, at or past the armed
    /// deadline.
    TimerDue { now_ms: u64 },
}

/// What a step tells the driver: finish the `next_event` call with this
/// result, or keep reading and waiting.
pub enum Step<M, E> {
    Done(Option<Event<M, E>>),
    Continue,
}

/// Ghost image of a `ReadOutcome`.
pub enum OutcomeModel {
    Data { bytes: Seq<u8>, now: u64 },
    Eof,
    ReadFailed,
    TimerDue { now: u64 },
}

impl View for ReadOutcome {
    type V = OutcomeModel;

    open spec fn view(&self) -> OutcomeModel {
        match self {
            ReadOutcome::Data { bytes, now_ms } => OutcomeModel::Data {
                bytes: bytes@,
                now: *now_ms,
            },
            ReadOutcome::Eof => OutcomeModel::Eof,
            ReadOutcome::ReadFailed => OutcomeModel::ReadFailed,
            ReadOutcome::TimerDue { now_ms } => OutcomeModel::TimerDue { now: *now_ms },
        }
    }
}

/// Ghost image of the loop state.
///
/// `epoch` is the anchor of both deadlines; `region` is the length of the
/// buffer region the decoder asked for (0 when none is outstanding);
/// `pending` holds the bytes received toward that region so far; `buffered`
/// are the bytes already inside the decoder.
#[verifier::ext_equal]
pub struct LoopView {
    pub terminated: bool,
    pub fired10: bool,
    pub epoch: u64,
    pub region: nat,
    pub pending: Seq<u8>,
    pub buffered: Seq<u8>,
}

/// Validity of a loop state: pending bytes never amount to a whole region
/// (a completed region is handed to the decoder at once), and without an
/// outstanding region nothing is pending.
pub open spec fn loop_wf(v: LoopView) -> bool {
    if v.region == 0 {
        v.pending.len() == 0
    } else {
        v.pending.len() < v.region
    }
}

/// The deadline the driver must arm next, anchored at the epoch: the 10 s
/// mark until `Timeout10` has fired for this epoch, the 30 s mark after.
/// Saturates at the top of the clock.
pub open spec fn spec_deadline(v: LoopView) -> u64 {
    let delay = if v.fired10 {
        DELAY30_MS
    } else {
        DELAY10_MS
    };
    if v.epoch + delay <= u64::MAX {
        (v.epoch + delay) as u64
    } else {
        u64::MAX
    }
}

/// Ghost image of an event (payloads erased).
pub enum EventTag {
    Message,
    Timeout10,
    Timeout30,
    Failed(FailTag),
}

/// Ghost image of a `DecodeFailure`.
pub enum FailTag {
    Framing,
    EndOfStream,
    Transport,
}

/// Ghost image of a `Step` (payloads erased).
pub enum StepTag {
    Done(Option<EventTag>),
    Continue,
}

pub open spec fn fail_tag<E>(f: DecodeFailure<E>) -> FailTag {
    match f {
        DecodeFailure::Framing(_) => FailTag::Framing,
        DecodeFailure::EndOfStream => FailTag::EndOfStream,
        DecodeFailure::Transport => FailTag::Transport,
    }
}

pub open spec fn event_tag<M, E>(e: Event<M, E>) -> EventTag {
    match e {
        Event::Message(_) => EventTag::Message,
        Event::Timeout10 => EventTag::Timeout10,
        Event::Timeout30 => EventTag::Timeout30,
        Event::DecodeError(f) => EventTag::Failed(fail_tag(f)),
    }
}

pub open spec fn step_tag<M, E>(s: Step<M, E>) -> StepTag {
    match s {
        Step::Done(None) => StepTag::Done(None),
        Step::Done(Some(e)) => StepTag::Done(Some(event_tag(e))),
        Step::Continue => StepTag::Continue,
    }
}

/// The whole decision of one step, as a mathematical function: next state and
/// (the shape of) the step result. `handle_outcome` refines it. In the
/// framing-failure case the decoder's buffer content is not meaningful any
/// more; this model keeps the fed bytes there, but nothing is promised of it.
pub open spec fn step_model<D: Decoder>(v: LoopView, o: OutcomeModel) -> (LoopView, StepTag) {
    if v.terminated {
        (v, StepTag::Done(None))
    } else {
        match o {
            OutcomeModel::Data { bytes, now } => {
                let pend = v.pending + bytes;
                if pend.len() < v.region {
                    (LoopView { pending: pend, ..v }, StepTag::Continue)
                } else {
                    let fed = v.buffered + pend;
                    let base = LoopView {
                        epoch: now,
                        fired10: false,
                        region: 0,
                        pending: Seq::<u8>::empty(),
                        buffered: fed,
                        ..v
                    };
                    match D::classify(fed) {
                        DecodeKind::Complete => (
                            LoopView { buffered: Seq::<u8>::empty(), ..base },
                            StepTag::Done(Some(EventTag::Message)),
                        ),
                        DecodeKind::NeedMore => (base, StepTag::Continue),
                        DecodeKind::Malformed => (
                            base,
                            StepTag::Done(Some(EventTag::Failed(FailTag::Framing))),
                        ),
                    }
                }
            },
            OutcomeModel::Eof => (
                v,
                StepTag::Done(Some(EventTag::Failed(FailTag::EndOfStream))),
            ),
            OutcomeModel::ReadFailed => (
                v,
                StepTag::Done(Some(EventTag::Failed(FailTag::Transport))),
            ),
            OutcomeModel::TimerDue { now } => {
                if now >= v.epoch + DELAY30_MS {
                    (
                        LoopView { terminated: true, ..v },
                        StepTag::Done(Some(EventTag::Timeout30)),
                    )
                } else if !v.fired10 && now >= v.epoch + DELAY10_MS {
                    (
                        LoopView { fired10: true, ..v },
                        StepTag::Done(Some(EventTag::Timeout10)),
                    )
                } else {
                    (v, StepTag::Continue)
                }
            },
        }
    }
}

/// The orchestrator: owns the decoder, the timer anchor and the terminal
/// flag, and decides every step of a `next_event` call. The byte source and
/// the clock stay with the driver.
pub struct EventLoop<D: Decoder> {
    decoder: D,
    last_activity_ms: u64,
    fired10: bool,
    terminated: bool,
    region: usize,
    pending: Vec<u8>,
}

impl<D: Decoder> View for EventLoop<D> {
    type V = LoopView;

    closed spec fn view(&self) -> LoopView {
        LoopView {
            terminated: self.terminated,
            fired10: self.fired10,
            epoch: self.last_activity_ms,
            region: self.region as nat,
            pending: self.pending@,
            buffered: self.decoder.buffered(),
        }
    }
}

impl<D: Decoder> EventLoop<D> {
    /// A fresh, active loop around `decoder`; both deadlines are anchored at
    /// the creation time `now_ms`.
    pub fn new(decoder: D, now_ms: u64) -> (r: EventLoop<D>)
        ensures
            r@.terminated == false,
            r@.fired10 == false,
            r@.epoch == now_ms,
            r@.region == 0,
            r@.pending == Seq::<u8>::empty(),
            r@.buffered == decoder.buffered(),
            loop_wf(r@),
    {
        EventLoop {
            decoder,
            last_activity_ms: now_ms,
            fired10: false,
            terminated: false,
            region: 0,
            pending: Vec::new(),
        }
    }

    /// Whether a 30 s timeout has been emitted. A terminated loop never
    /// produces an event again; a driver answers "no more events" without
    /// touching the decoder or the source.
    pub fn is_terminated(&self) -> (b: bool)
        ensures
            b == self@.terminated,
    {
        self.terminated
    }

    /// The deadline the driver must arm for the next wait.
    pub fn next_deadline_ms(&self) -> (d: u64)
        ensures
            d == spec_deadline(self@),
    {
        let delay: u64 = if self.fired10 {
            DELAY30_MS
        } else {
            DELAY10_MS
        };
        if self.last_activity_ms <= u64::MAX - delay {
            self.last_activity_ms + delay
        } else {
            u64::MAX
        }
    }

    /// How many bytes the driver should read next: the unfilled rest of the
    /// current region, a fresh region from the decoder when none is
    /// outstanding, and 0 on a terminated loop (whose decoder is never asked
    /// again).
    pub fn request_region(&mut self) -> (n: usize)
        requires
            loop_wf(old(self)@),
        ensures
            loop_wf(final(self)@),
            old(self)@.terminated ==> final(self)@ == old(self)@ && n == 0,
            !old(self)@.terminated ==> ({
                &&& final(self)@.terminated == old(self)@.terminated
                &&& final(self)@.fired10 == old(self)@.fired10
                &&& final(self)@.epoch == old(self)@.epoch
                &&& final(self)@.pending == old(self)@.pending
                &&& final(self)@.buffered == old(self)@.buffered
                &&& final(self)@.region > 0
                &&& (old(self)@.region > 0 ==> final(self)@.region == old(self)@.region)
                &&& (old(self)@.region == 0 ==> final(self)@.region == D::demand(
                    old(self)@.buffered,
                ))
                &&& n == final(self)@.region - final(self)@.pending.len()
                &&& n > 0
            }),
    {
        if self.terminated {
            return 0;
        }
        if self.region == 0 {
            self.region = self.decoder.supply_buffer();
        }
        self.region - self.pending.len()
    }

    /// Fold one observation into the loop. Refines `step_model`; on top of
    /// the model, the payloads are pinned: a message event carries what the
    /// fed bytes decode to, a framing event the error they fail with.
    ///
    /// A data report must fit the outstanding region: the driver reads at
    /// most `request_region()` bytes at a time.
    pub fn handle_outcome(&mut self, outcome: ReadOutcome) -> (r: Step<D::Message, D::Error>)
        requires
            loop_wf(old(self)@),
            outcome matches ReadOutcome::Data { bytes, .. } ==> ({
                &&& old(self)@.region > 0
                &&& old(self)@.pending.len() + bytes@.len() <= old(self)@.region
            }),
        ensures
            loop_wf(final(self)@),
            ({
                let sm = step_model::<D>(old(self)@, outcome@);
                &&& step_tag(r) == sm.1
                &&& final(self)@.terminated == sm.0.terminated
                &&& final(self)@.fired10 == sm.0.fired10
                &&& final(self)@.epoch == sm.0.epoch
                &&& final(self)@.region == sm.0.region
                &&& final(self)@.pending == sm.0.pending
                &&& (sm.1 != StepTag::Done(Some(EventTag::Failed(FailTag::Framing)))
                    ==> final(self)@.buffered == sm.0.buffered)
            }),
            outcome matches ReadOutcome::Data { bytes, .. } ==> ({
                let fed = old(self)@.buffered + old(self)@.pending + bytes@;
                &&& (r matches Step::Done(Some(Event::Message(m))) ==> D::decodes_to(fed, m))
                &&& (r matches Step::Done(Some(Event::DecodeError(DecodeFailure::Framing(e))))
                    ==> D::fails_with(fed, e))
            }),
    {
        if self.terminated {
            return Step::Done(None);
        }
        match outcome {
            ReadOutcome::Data { bytes, now_ms } => {
                let mut i: usize = 0;
                while i < bytes.len()
                    invariant
                        i <= bytes@.len(),
                        self.pending@ == old(self).pending@ + bytes@.subrange(0, i as int),
                        self.pending@.len() <= old(self).pending@.len() + bytes@.len(),
                        self.region == old(self).region,
                        self.terminated == old(self).terminated,
                        self.fired10 == old(self).fired10,
                        self.last_activity_ms == old(self).last_activity_ms,
                        self.decoder == old(self).decoder,
                    decreases bytes@.len() - i,
                {
                    let b = bytes[i];
                    self.pending.push(b);
                    i = i + 1;
                    proof {
                        assert(bytes@.subrange(0, i as int) == bytes@.subrange(0, i - 1).push(
                            bytes@[i - 1],
                        ));
                    }
                }
                proof {
                    assert(bytes@.subrange(0, bytes@.len() as int) == bytes@);
                }
                if self.pending.len() < self.region {
                    Step::Continue
                } else {
                    self.last_activity_ms = now_ms;
                    self.fired10 = false;
                    self.region = 0;
                    self.decoder.fill_buffer(self.pending.as_slice());
                    self.pending.clear();
                    proof {
                        assert(old(self)@.buffered + old(self)@.pending + bytes@ =~= old(
                            self,
                        )@.buffered + (old(self)@.pending + bytes@));
                    }
                    match self.decoder.try_decode() {
                        Ok(Some(m)) => Step::Done(Some(Event::Message(m))),
                        Ok(None) => Step::Continue,
                        Err(e) => Step::Done(
                            Some(Event::DecodeError(DecodeFailure::Framing(e))),
                        ),
                    }
                }
            },
            ReadOutcome::Eof => Step::Done(Some(Event::DecodeError(DecodeFailure::EndOfStream))),
            ReadOutcome::ReadFailed => Step::Done(
                Some(Event::DecodeError(DecodeFailure::Transport)),
            ),
            ReadOutcome::TimerDue { now_ms } => {
                if now_ms >= self.last_activity_ms && now_ms - self.last_activity_ms
                    >= DELAY30_MS {
                    self.terminated = true;
                    Step::Done(Some(Event::Timeout30))
                } else if !self.fired10 && now_ms >= self.last_activity_ms && now_ms
                    - self.last_activity_ms >= DELAY10_MS {
                    self.fired10 = true;
                    Step::Done(Some(Event::Timeout10))
                } else {
                    Step::Continue
                }
            },
        }
    }
}

/// Termination invariant: once terminated, the loop absorbs every
/// observation — the state is unchanged and the step yields "no more
/// events", so nothing is ever read or decoded again.
pub proof fn lemma_terminated_absorbing<D: Decoder>(v: LoopView, o: OutcomeModel)
    requires
        v.terminated,
    ensures
        step_model::<D>(v, o).0 == v,
        step_model::<D>(v, o).1 == StepTag::Done(None),
{
}

/// Every step keeps the loop state valid: pending bytes never amount to a
/// whole region, and without an outstanding region nothing is pending.
pub proof fn lemma_step_preserves_wf<D: Decoder>(v: LoopView, o: OutcomeModel)
    requires
        loop_wf(v),
    ensures
        loop_wf(step_model::<D>(v, o).0),
{
}

/// Iterated steps: the loop state after a driver has folded in a whole
/// sequence of observations, oldest first.
pub open spec fn run_model<D: Decoder>(v: LoopView, os: Seq<OutcomeModel>) -> LoopView
    decreases os.len(),
{
    if os.len() == 0 {
        v
    } else {
        run_model::<D>(step_model::<D>(v, os[0]).0, os.subrange(1, os.len() as int))
    }
}

/// Termination invariant over whole call sequences: a terminated loop is left
/// exactly as it is by any sequence of observations (each single step of
/// which, by `lemma_terminated_absorbing`, yields "no more events").
pub proof fn lemma_terminated_forever<D: Decoder>(v: LoopView, os: Seq<OutcomeModel>)
    requires
        v.terminated,
    ensures
        run_model::<D>(v, os) == v,
    decreases os.len(),
{
    if os.len() > 0 {
        lemma_terminated_absorbing::<D>(v, os[0]);
        lemma_terminated_forever::<D>(v, os.subrange(1, os.len() as int));
    }
}

/// The 30 s timeout is the only terminal event: a step emits `Timeout30`
/// exactly when it moves an active loop to the terminated state — no other
/// event terminates, and termination is never reverted.
pub proof fn lemma_timeout30_terminal<D: Decoder>(v: LoopView, o: OutcomeModel)
    ensures
        (step_model::<D>(v, o).1 == StepTag::Done(Some(EventTag::Timeout30))) <==> (!v.terminated
            && step_model::<D>(v, o).0.terminated),
        v.terminated ==> step_model::<D>(v, o).0.terminated,
{
}

/// Read priority: a data report never yields a timeout, however far past the
/// deadlines its arrival time lies.
pub proof fn lemma_read_priority<D: Decoder>(v: LoopView, bytes: Seq<u8>, now: u64)
    ensures
        step_model::<D>(v, OutcomeModel::Data { bytes, now }).1 != StepTag::Done(
            Some(EventTag::Timeout10),
        ),
        step_model::<D>(v, OutcomeModel::Data { bytes, now }).1 != StepTag::Done(
            Some(EventTag::Timeout30),
        ),
{
}

/// Timer epoch reset: data completing the region moves the epoch to the fill
/// time, rearms the 10 s signal, and leaves the loop active, whatever the
/// decode outcome — the next deadlines are anchored at `now`, not at the old
/// epoch.
pub proof fn lemma_epoch_reset<D: Decoder>(v: LoopView, bytes: Seq<u8>, now: u64)
    requires
        !v.terminated,
        v.pending.len() + bytes.len() >= v.region,
    ensures
        step_model::<D>(v, OutcomeModel::Data { bytes, now }).0.epoch == now,
        step_model::<D>(v, OutcomeModel::Data { bytes, now }).0.fired10 == false,
        !step_model::<D>(v, OutcomeModel::Data { bytes, now }).0.terminated,
{
}

/// Timer independence: while silence lasts, the 10 s signal of an epoch is
/// observed strictly before its 30 s signal; the first leaves the epoch and
/// the active state alone, the second terminates the loop.
pub proof fn lemma_timer_order<D: Decoder>(v: LoopView, n1: u64, n2: u64)
    requires
        !v.terminated,
        !v.fired10,
        v.epoch + DELAY10_MS <= n1,
        n1 < v.epoch + DELAY30_MS,
        v.epoch + DELAY30_MS <= n2,
    ensures
        ({
            let s1 = step_model::<D>(v, OutcomeModel::TimerDue { now: n1 });
            let s2 = step_model::<D>(s1.0, OutcomeModel::TimerDue { now: n2 });
            &&& s1.1 == StepTag::Done(Some(EventTag::Timeout10))
            &&& !s1.0.terminated
            &&& s1.0.epoch == v.epoch
            &&& s2.1 == StepTag::Done(Some(EventTag::Timeout30))
            &&& s2.0.terminated
        }),
{
}

/// The gap between the two signals of one epoch: after `Timeout10` the armed
/// deadline moves to the 30 s mark of the same epoch, 20 s after the 10 s
/// mark it replaces.
pub proof fn lemma_deadline_gap<D: Decoder>(v: LoopView, n1: u64)
    requires
        !v.terminated,
        !v.fired10,
        v.epoch + DELAY10_MS <= n1,
        n1 < v.epoch + DELAY30_MS,
        v.epoch + DELAY30_MS <= u64::MAX,
    ensures
        ({
            let v1 = step_model::<D>(v, OutcomeModel::TimerDue { now: n1 }).0;
            spec_deadline(v1) == spec_deadline(v) + (DELAY30_MS - DELAY10_MS)
        }),
{
}

} // verus!
