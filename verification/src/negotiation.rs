//! The format negotiation as a state machine.
//!
//! A client submits an offer and then waits. The transport reports every
//! parameter change of the stream; the negotiator reads each report and
//! either keeps waiting, settles on a format, or gives up. It never settles
//! on a format that the offer does not cover, and it settles at most once.

use vstd::prelude::*;
use crate::format::{FormatOffer, NegotiatedFormat, OfferModel, RawVideoInfo};
use crate::session::TransportTarget;

verus! {

/// Which parameter of the stream a notification is about.
#[derive(Clone, Copy, Debug, PartialEq, Eq, Structural)]
pub enum ParamKind {
    EnumFormat,
    Format,
    Other,
}

#[derive(Clone, Copy, Debug, PartialEq, Eq, Structural)]
pub enum MediaType {
    Audio,
    Video,
    Other,
}

#[derive(Clone, Copy, Debug, PartialEq, Eq, Structural)]
pub enum MediaSubtype {
    Raw,
    Other,
}

/// What the transport could read from the object that came with a
/// notification.
#[derive(Clone, Copy, Debug, PartialEq, Eq)]
pub struct FormatPayload {
    /// The media type and subtype, or `None` when they could not be read.
    pub media: Option<(MediaType, MediaSubtype)>,
    /// The object decoded as raw video, or `None` when it does not decode.
    pub raw_video: Option<RawVideoInfo>,
}

/// What can happen while a negotiation waits.
#[derive(Clone, Copy, Debug, PartialEq, Eq)]
pub enum Event {
    /// A parameter of the stream changed. `payload` is `None` when the
    /// notification came without an object.
    ParamChanged { kind: ParamKind, payload: Option<FormatPayload> },
    /// Nothing arrived; only time has passed.
    Tick,
}

/// An event with the time at which it was observed, in milliseconds on a
/// clock of the caller's choice.
#[derive(Clone, Copy, Debug, PartialEq, Eq)]
pub struct TimedEvent {
    pub at_ms: u64,
    pub event: Event,
}

/// Why a negotiation gave up.
#[derive(Clone, Copy, Debug, PartialEq, Eq, Structural)]
pub enum NegotiationError {
    /// A raw-video notification came whose object could not be decoded.
    ParseFailed,
    /// The wait ended before any notification settled a format.
    Timeout,
}

/// What the operator is told about an error.
pub open spec fn negotiation_error_text(error: NegotiationError) -> Seq<char> {
    match error {
        NegotiationError::ParseFailed => "Parsing param failed"@,
        NegotiationError::Timeout => "No format was negotiated in time"@,
    }
}

impl NegotiationError {
    pub fn message(&self) -> (r: &'static str)
        ensures
            r@ == negotiation_error_text(*self),
    {
        match self {
            NegotiationError::ParseFailed => "Parsing param failed",
            NegotiationError::Timeout => "No format was negotiated in time",
        }
    }
}

/// Where a negotiation stands.
#[derive(Clone, Copy, Debug, PartialEq, Eq, Structural)]
pub enum Phase {
    Waiting,
    Completed(NegotiatedFormat),
    Failed(NegotiationError),
}

/// What the negotiator tells its driver after an event.
#[derive(Clone, Copy, Debug, PartialEq, Eq, Structural)]
pub enum Action {
    /// Nothing was decided; keep delivering events.
    Wait,
    /// The negotiation has just settled on this format.
    Complete(NegotiatedFormat),
    /// The negotiation has just given up.
    Fail(NegotiationError),
    /// The negotiation had ended before this event; the event changed nothing.
    Idle,
}

/// How long a negotiation waits when the caller names no limit.
pub const DEFAULT_WAIT_MS: u64 = 5000;

/// What one event says, before any offer is consulted.
#[derive(Clone, Copy, Debug, PartialEq, Eq)]
pub enum Reading {
    /// Not a raw-video format notification: to be passed over.
    Skip,
    /// A raw-video format notification whose object does not decode.
    Undecodable,
    /// A raw-video format notification that decoded to this announcement.
    Announced(RawVideoInfo),
}

pub open spec fn is_raw_video(media: (MediaType, MediaSubtype)) -> bool {
    media.0 == MediaType::Video && media.1 == MediaSubtype::Raw
}

pub open spec fn read_event(event: Event) -> Reading {
    match event {
        Event::Tick => Reading::Skip,
        Event::ParamChanged { kind, payload } => {
            if kind != ParamKind::Format {
                Reading::Skip
            } else {
                match payload {
                    None => Reading::Skip,
                    Some(object) => match object.media {
                        None => Reading::Skip,
                        Some(media) => {
                            if !is_raw_video(media) {
                                Reading::Skip
                            } else {
                                match object.raw_video {
                                    None => Reading::Undecodable,
                                    Some(info) => Reading::Announced(info),
                                }
                            }
                        },
                    },
                }
            }
        },
    }
}

/// A negotiation, mathematically: the transport it runs on, the offer that
/// was submitted, the time at which the wait ends, and where the negotiation
/// stands.
pub struct NegotiatorModel {
    pub target: TransportTarget,
    pub offer: OfferModel,
    pub deadline_ms: u64,
    pub phase: Phase,
}

/// The time at which a wait of `timeout_ms` that starts at `now_ms` ends; the
/// last instant of the clock when the sum would pass it.
pub open spec fn deadline_of(now_ms: u64, timeout_ms: u64) -> u64 {
    if now_ms + timeout_ms > u64::MAX {
        u64::MAX
    } else {
        (now_ms + timeout_ms) as u64
    }
}

impl NegotiatorModel {
    /// A negotiation that has just submitted `offer` on `target` at `now_ms`.
    pub open spec fn submitted(
        target: TransportTarget,
        offer: OfferModel,
        now_ms: u64,
        timeout_ms: u64,
    ) -> Self {
        NegotiatorModel {
            target,
            offer,
            deadline_ms: deadline_of(now_ms, timeout_ms),
            phase: Phase::Waiting,
        }
    }

    /// The phase after one event. A negotiation that has ended stays as it
    /// is. One that waits gives up when the event comes after the deadline,
    /// whatever the event holds; otherwise it gives up on an undecodable
    /// raw-video object, settles on an announcement that the offer admits,
    /// and passes over everything else.
    pub open spec fn phase_after(self, timed: TimedEvent) -> Phase {
        if self.phase != Phase::Waiting {
            self.phase
        } else if timed.at_ms > self.deadline_ms {
            Phase::Failed(NegotiationError::Timeout)
        } else {
            match read_event(timed.event) {
                Reading::Skip => Phase::Waiting,
                Reading::Undecodable => Phase::Failed(NegotiationError::ParseFailed),
                Reading::Announced(info) => match self.offer.settle(info) {
                    Some(chosen) => Phase::Completed(chosen),
                    None => Phase::Waiting,
                },
            }
        }
    }

    pub open spec fn step(self, timed: TimedEvent) -> Self {
        NegotiatorModel { phase: self.phase_after(timed), ..self }
    }

    /// The state after a whole sequence of events, first to last.
    pub open spec fn run(self, trace: Seq<TimedEvent>) -> Self
        decreases trace.len(),
    {
        if trace.len() == 0 {
            self
        } else {
            self.run(trace.drop_last()).step(trace.last())
        }
    }

    /// What a caller gets who stops waiting in this state: the settled
    /// format, the error, or a timeout when nothing was settled.
    pub open spec fn outcome(self) -> Result<NegotiatedFormat, NegotiationError> {
        match self.phase {
            Phase::Completed(chosen) => Ok(chosen),
            Phase::Failed(error) => Err(error),
            Phase::Waiting => Err(NegotiationError::Timeout),
        }
    }

    /// Whether `timed` is an event that settles `chosen`: a raw-video
    /// notification inside the wait, decoded, and admitted by the offer.
    pub open spec fn settles(self, timed: TimedEvent, chosen: NegotiatedFormat) -> bool {
        &&& timed.at_ms <= self.deadline_ms
        &&& read_event(timed.event) matches Reading::Announced(info)
        &&& self.offer.settle(info) == Some(chosen)
    }
}

/// What the driver is told when the phase goes from `before` to `after`.
pub open spec fn action_for(before: Phase, after: Phase) -> Action {
    if before != Phase::Waiting {
        Action::Idle
    } else {
        match after {
            Phase::Waiting => Action::Wait,
            Phase::Completed(chosen) => Action::Complete(chosen),
            Phase::Failed(error) => Action::Fail(error),
        }
    }
}

/// A negotiation in progress.
#[derive(Debug)]
pub struct Negotiator {
    target: TransportTarget,
    offer: FormatOffer,
    deadline_ms: u64,
    phase: Phase,
}

impl View for Negotiator {
    type V = NegotiatorModel;

    closed spec fn view(&self) -> NegotiatorModel {
        NegotiatorModel {
            target: self.target,
            offer: self.offer@,
            deadline_ms: self.deadline_ms,
            phase: self.phase,
        }
    }
}

/// Reads one event.
pub fn read(event: &Event) -> (r: Reading)
    ensures
        r == read_event(*event),
{
    match event {
        Event::Tick => Reading::Skip,
        Event::ParamChanged { kind, payload } => {
            if *kind != ParamKind::Format {
                return Reading::Skip;
            }
            match payload {
                None => Reading::Skip,
                Some(object) => match object.media {
                    None => Reading::Skip,
                    Some((media_type, media_subtype)) => {
                        if media_type == MediaType::Video && media_subtype == MediaSubtype::Raw {
                            match object.raw_video {
                                None => Reading::Undecodable,
                                Some(info) => Reading::Announced(info),
                            }
                        } else {
                            Reading::Skip
                        }
                    },
                },
            }
        },
    }
}

impl Negotiator {
    /// Starts a negotiation on an opened transport: `offer` is submitted at
    /// `now_ms`, and the wait for the source's answer ends `timeout_ms` later.
    pub fn submit(
        target: TransportTarget,
        offer: FormatOffer,
        now_ms: u64,
        timeout_ms: u64,
    ) -> (r: Negotiator)
        ensures
            r@ == NegotiatorModel::submitted(target, offer@, now_ms, timeout_ms),
    {
        let deadline_ms: u64 = now_ms.saturating_add(timeout_ms);
        Negotiator { target, offer, deadline_ms, phase: Phase::Waiting }
    }

    /// The transport the negotiation runs on: its stream is bound to this
    /// target's node.
    pub fn target(&self) -> (r: TransportTarget)
        ensures
            r == self@.target,
    {
        self.target
    }

    /// Takes one event and says what it decided.
    pub fn step(&mut self, timed: &TimedEvent) -> (action: Action)
        ensures
            final(self)@ == old(self)@.step(*timed),
            action == action_for(old(self)@.phase, final(self)@.phase),
            action matches Action::Complete(chosen) ==> old(self)@.offer.covers(chosen)
                && old(self)@.settles(*timed, chosen),
    {
        match self.phase {
            Phase::Waiting => {},
            _ => {
                return Action::Idle;
            },
        }
        if timed.at_ms > self.deadline_ms {
            self.phase = Phase::Failed(NegotiationError::Timeout);
            return Action::Fail(NegotiationError::Timeout);
        }
        match read(&timed.event) {
            Reading::Skip => Action::Wait,
            Reading::Undecodable => {
                self.phase = Phase::Failed(NegotiationError::ParseFailed);
                Action::Fail(NegotiationError::ParseFailed)
            },
            Reading::Announced(info) => match self.offer.settle(&info) {
                Some(chosen) => {
                    self.phase = Phase::Completed(chosen);
                    Action::Complete(chosen)
                },
                None => Action::Wait,
            },
        }
    }

    /// Where the negotiation stands.
    pub fn phase(&self) -> (r: Phase)
        ensures
            r == self@.phase,
    {
        self.phase
    }

    /// The settled format. There is none to read until the negotiation has
    /// completed.
    pub fn format(&self) -> (r: Option<NegotiatedFormat>)
        ensures
            r == (match self@.phase {
                Phase::Completed(chosen) => Some(chosen),
                _ => None,
            }),
    {
        match self.phase {
            Phase::Completed(chosen) => Some(chosen),
            _ => None,
        }
    }

    /// The offer that was submitted.
    pub fn offer(&self) -> (r: &FormatOffer)
        ensures
            r@ == self@.offer,
    {
        &self.offer
    }

    /// The time at which the wait ends.
    pub fn deadline_ms(&self) -> (r: u64)
        ensures
            r == self@.deadline_ms,
    {
        self.deadline_ms
    }

    /// Ends the wait and hands out what the negotiation came to.
    pub fn finish(self) -> (r: Result<NegotiatedFormat, NegotiationError>)
        ensures
            r == self@.outcome(),
    {
        match self.phase {
            Phase::Completed(chosen) => Ok(chosen),
            Phase::Failed(error) => Err(error),
            Phase::Waiting => Err(NegotiationError::Timeout),
        }
    }
}

/// The receiving end of a channel of `async_channel`. Nothing is known of
/// what it holds: its senders fill it from other threads.
#[verifier::external_type_specification]
#[verifier::external_body]
#[verifier::reject_recursive_types(T)]
pub struct ExReceiver<T>(async_channel::Receiver<T>);

/// Calls `async_channel::Receiver::try_recv`, which takes the oldest message
/// out of the channel without waiting. `None` stands for both of its errors:
/// the channel is empty, or it is empty and closed. Which of these comes
/// back depends on what the senders have done, so nothing is claimed of it.
#[verifier::external_body]
fn next_pending(events: &async_channel::Receiver<TimedEvent>) -> (r: Option<TimedEvent>) {
    events.try_recv().ok()
}

impl Negotiator {
    /// Takes the events that wait in the channel, oldest first, until the
    /// negotiation has ended, nothing waits any more, or `limit` events were
    /// taken. Whatever the channel held, the negotiation is where some run
    /// of at most `limit` events takes it from where it was.
    pub fn take_pending(
        &mut self,
        events: &async_channel::Receiver<TimedEvent>,
        limit: usize,
    ) -> (r: Phase)
        ensures
            exists|trace: Seq<TimedEvent>|
                trace.len() <= limit && final(self)@ == #[trigger] old(self)@.run(trace),
            r == final(self)@.phase,
            old(self)@.phase == Phase::Waiting ==> (r matches Phase::Completed(chosen)
                ==> old(self)@.offer.covers(chosen)),
            old(self)@.phase != Phase::Waiting ==> final(self)@ == old(self)@,
    {
        let ghost mut taken: Seq<TimedEvent> = Seq::empty();
        let mut count: usize = 0;
        while count < limit
            invariant
                count <= limit,
                taken.len() == count,
                self@ == old(self)@.run(taken),
            decreases limit - count,
        {
            match self.phase {
                Phase::Waiting => {},
                _ => {
                    break ;
                },
            }
            match next_pending(events) {
                None => {
                    break ;
                },
                Some(timed) => {
                    let _ = self.step(&timed);
                    proof {
                        let longer = taken.push(timed);
                        assert(longer.drop_last() =~= taken);
                        assert(longer.last() == timed);
                        taken = longer;
                    }
                    count += 1;
                },
            }
        }
        proof {
            if old(self)@.phase == Phase::Waiting {
                negotiated_format_is_within_offer(old(self)@, taken);
            } else {
                ended_negotiation_is_final(old(self)@, taken);
            }
        }
        self.phase
    }
}

/// Negotiates over a recorded wait: submits `offer` on `target` at `now_ms`,
/// takes the events in order, and returns what the negotiation came to when
/// they are used up.
pub fn negotiate(
    target: TransportTarget,
    offer: FormatOffer,
    now_ms: u64,
    timeout_ms: u64,
    events: &Vec<TimedEvent>,
) -> (r: Result<NegotiatedFormat, NegotiationError>)
    ensures
        r == NegotiatorModel::submitted(target, offer@, now_ms, timeout_ms).run(
            events@,
        ).outcome(),
        r matches Ok(chosen) ==> offer@.covers(chosen),
{
    let ghost start = NegotiatorModel::submitted(target, offer@, now_ms, timeout_ms);
    let mut negotiator = Negotiator::submit(target, offer, now_ms, timeout_ms);
    let mut i: usize = 0;
    while i < events.len()
        invariant
            i <= events.len(),
            negotiator@ == start.run(events@.take(i as int)),
        decreases events.len() - i,
    {
        let _ = negotiator.step(&events[i]);
        proof {
            let shorter = events@.take(i as int);
            let longer = events@.take(i + 1);
            assert(longer.drop_last() =~= shorter);
            assert(longer.last() == events@[i as int]);
        }
        i += 1;
    }
    proof {
        assert(events@.take(i as int) =~= events@);
        negotiated_format_is_within_offer(start, events@);
    }
    negotiator.finish()
}

/// A negotiation that has ended stays as it ended, whatever comes later.
pub proof fn ended_negotiation_is_final(state: NegotiatorModel, trace: Seq<TimedEvent>)
    requires
        state.phase != Phase::Waiting,
    ensures
        state.run(trace) == state,
    decreases trace.len(),
{
    if trace.len() > 0 {
        ended_negotiation_is_final(state, trace.drop_last());
    }
}

/// Events change the phase of a negotiation and nothing else: not the
/// transport, not the offer, not the deadline.
pub proof fn run_changes_only_the_phase(state: NegotiatorModel, trace: Seq<TimedEvent>)
    ensures
        state.run(trace).target == state.target,
        state.run(trace).offer == state.offer,
        state.run(trace).deadline_ms == state.deadline_ms,
    decreases trace.len(),
{
    if trace.len() > 0 {
        run_changes_only_the_phase(state, trace.drop_last());
    }
}

/// Whatever a negotiation settles on lies inside the offer it submitted: the
/// pixel format is one of the candidates, the size is in the size range, and
/// the rate is in the rate range.
pub proof fn negotiated_format_is_within_offer(state: NegotiatorModel, trace: Seq<TimedEvent>)
    requires
        state.phase == Phase::Waiting,
    ensures
        state.run(trace).outcome() matches Ok(chosen) ==> state.offer.covers(chosen),
    decreases trace.len(),
{
    if trace.len() > 0 {
        negotiated_format_is_within_offer(state, trace.drop_last());
        run_changes_only_the_phase(state, trace.drop_last());
    }
}

/// An event that is not a decoded raw-video format notification never
/// completes a negotiation: after it, the negotiation is completed only if
/// it was before, and with the same format.
pub proof fn only_raw_video_completes(state: NegotiatorModel, timed: TimedEvent)
    requires
        !(read_event(timed.event) is Announced),
    ensures
        state.step(timed).phase is Completed ==> state.step(timed).phase == state.phase,
{
}

/// A negotiation completes with a format only after an event that settles
/// that format: a raw-video format notification that arrived within the wait,
/// was decoded, and is admitted by the offer.
pub proof fn completion_follows_parsed_raw_video(state: NegotiatorModel, trace: Seq<TimedEvent>)
    requires
        state.phase == Phase::Waiting,
    ensures
        state.run(trace).phase matches Phase::Completed(chosen) ==> exists|i: int|
            0 <= i < trace.len() && #[trigger] state.settles(trace[i], chosen),
    decreases trace.len(),
{
    if trace.len() > 0 {
        let shorter = trace.drop_last();
        completion_follows_parsed_raw_video(state, shorter);
        run_changes_only_the_phase(state, shorter);
        let before = state.run(shorter);
        if let Phase::Completed(chosen) = state.run(trace).phase {
            if before.phase == Phase::Waiting {
                assert(state.settles(trace[trace.len() - 1], chosen));
            } else {
                let i = choose|i: int|
                    0 <= i < shorter.len() && #[trigger] state.settles(shorter[i], chosen);
                assert(state.settles(trace[i], chosen));
            }
        }
    }
}

/// How many events of a trace made the negotiation complete.
pub open spec fn completions(state: NegotiatorModel, trace: Seq<TimedEvent>) -> nat
    decreases trace.len(),
{
    if trace.len() == 0 {
        0
    } else {
        let before = state.run(trace.drop_last());
        let signalled: nat = if action_for(before.phase, before.step(trace.last()).phase) is Complete {
            1
        } else {
            0
        };
        completions(state, trace.drop_last()) + signalled
    }
}

/// Completion is signalled exactly once in a trace that ends completed, and
/// never in any other; a negotiation that had ended before the trace signals
/// nothing.
pub proof fn completion_is_signalled_once(state: NegotiatorModel, trace: Seq<TimedEvent>)
    ensures
        state.phase == Phase::Waiting ==> completions(state, trace) == (if state.run(trace).phase is Completed {
            1nat
        } else {
            0nat
        }),
        state.phase != Phase::Waiting ==> completions(state, trace) == 0,
    decreases trace.len(),
{
    if trace.len() > 0 {
        completion_is_signalled_once(state, trace.drop_last());
        if state.phase != Phase::Waiting {
            ended_negotiation_is_final(state, trace.drop_last());
        }
    }
}

} // verus!
