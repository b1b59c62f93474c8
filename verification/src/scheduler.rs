//! The life of one webhook delivery stream, as a state machine the runner
//! drives: armed timers, sends, and cooperative cancellation.
//!
//! Each configured interval endpoint owns one stream. The runner performs
//! the outside work — awaiting the timer, posting the request — and feeds
//! every outcome back as an event; the machine decides what happens next.
//! Streams are stepped one at a time and share nothing, delivery outcomes
//! never reach the schedule, and cancellation is terminal: those are the
//! independence and shutdown guarantees, proved below.

use vstd::prelude::*;

use crate::metrics::Millis;

verus! {

/// Where one delivery stream stands: not yet started, waiting on its
/// timer, sending one delivery, or cancelled for good.
#[derive(Clone, Copy, PartialEq, Eq, Structural, Debug)]
pub enum StreamPhase {
    Idle,
    Waiting,
    Sending,
    Cancelled,
}

/// What the runner must do after a step: nothing, wait for the timer due
/// at `next_due`, or build and post one delivery.
#[derive(Clone, Copy, PartialEq, Eq, Structural, Debug)]
pub enum StreamAction {
    DoNothing,
    ArmTimer,
    Send,
}

/// What the runner observed: the stream was started, the armed timer
/// fired, one delivery finished (however it went), or shutdown was
/// requested.
#[derive(Clone, Copy, PartialEq, Eq, Structural, Debug)]
pub enum StreamEvent {
    Started { now: Millis },
    TimerFired { now: Millis },
    DeliveryFinished { delivered: bool },
    CancelRequested,
}

/// One endpoint's delivery stream: its phase, its own interval in
/// milliseconds, and when its timer is next due. Timers tick at a fixed
/// cadence: the first tick is immediate, and each delivery, however it
/// went, leaves the next tick one interval after the last.
#[derive(Clone, Copy, PartialEq, Eq, Structural, Debug)]
pub struct StreamState {
    pub phase: StreamPhase,
    pub interval: Millis,
    pub next_due: Millis,
}

/// Addition that stops at the largest representable time instead of
/// wrapping.
pub open spec fn spec_sat_add(a: Millis, b: Millis) -> Millis {
    if a + b > u64::MAX {
        u64::MAX
    } else {
        (a + b) as u64
    }
}

/// The whole machine: what one event does to one stream, and what the
/// runner must do next. A cancelled stream absorbs every event and acts no
/// more; an event that does not fit the phase (a stray timer tick, a
/// delivery report while waiting) changes nothing.
pub open spec fn spec_stream_step(s: StreamState, e: StreamEvent) -> (StreamState, StreamAction) {
    if s.phase is Cancelled {
        (s, StreamAction::DoNothing)
    } else {
        match e {
            StreamEvent::CancelRequested => (
                StreamState { phase: StreamPhase::Cancelled, interval: s.interval, next_due: s.next_due },
                StreamAction::DoNothing,
            ),
            StreamEvent::Started { now } => {
                if s.phase is Idle {
                    (
                        StreamState { phase: StreamPhase::Waiting, interval: s.interval, next_due: now },
                        StreamAction::ArmTimer,
                    )
                } else {
                    (s, StreamAction::DoNothing)
                }
            },
            StreamEvent::TimerFired { now } => {
                if s.phase is Waiting && now >= s.next_due {
                    (
                        StreamState { phase: StreamPhase::Sending, interval: s.interval, next_due: s.next_due },
                        StreamAction::Send,
                    )
                } else {
                    (s, StreamAction::DoNothing)
                }
            },
            StreamEvent::DeliveryFinished { delivered: _ } => {
                if s.phase is Sending {
                    (
                        StreamState {
                            phase: StreamPhase::Waiting,
                            interval: s.interval,
                            next_due: spec_sat_add(s.next_due, s.interval),
                        },
                        StreamAction::ArmTimer,
                    )
                } else {
                    (s, StreamAction::DoNothing)
                }
            },
        }
    }
}

impl StreamState {
    /// A stream for an endpoint delivered to every `interval`
    /// milliseconds, not yet started.
    pub fn new(interval: Millis) -> (r: StreamState)
        ensures
            r.phase is Idle,
            r.interval == interval,
            r.next_due == 0,
    {
        StreamState { phase: StreamPhase::Idle, interval, next_due: 0 }
    }

    /// Feed one event to this stream and learn what to do next.
    pub fn step(&mut self, event: StreamEvent) -> (a: StreamAction)
        ensures
            (*final(self), a) == spec_stream_step(*old(self), event),
    {
        if matches!(self.phase, StreamPhase::Cancelled) {
            return StreamAction::DoNothing;
        }
        match event {
            StreamEvent::CancelRequested => {
                self.phase = StreamPhase::Cancelled;
                StreamAction::DoNothing
            },
            StreamEvent::Started { now } => {
                if matches!(self.phase, StreamPhase::Idle) {
                    self.phase = StreamPhase::Waiting;
                    self.next_due = now;
                    StreamAction::ArmTimer
                } else {
                    StreamAction::DoNothing
                }
            },
            StreamEvent::TimerFired { now } => {
                if matches!(self.phase, StreamPhase::Waiting) && now >= self.next_due {
                    self.phase = StreamPhase::Sending;
                    StreamAction::Send
                } else {
                    StreamAction::DoNothing
                }
            },
            StreamEvent::DeliveryFinished { delivered: _ } => {
                if matches!(self.phase, StreamPhase::Sending) {
                    self.phase = StreamPhase::Waiting;
                    self.next_due = if self.next_due > u64::MAX - self.interval {
                        u64::MAX
                    } else {
                        self.next_due + self.interval
                    };
                    StreamAction::ArmTimer
                } else {
                    StreamAction::DoNothing
                }
            },
        }
    }
}

/// Step the stream of endpoint `i` alone: every other endpoint's stream is
/// left exactly as it was, whatever the event — one endpoint's timers and
/// failures cannot move another endpoint's schedule.
pub fn step_endpoint(streams: &mut Vec<StreamState>, i: usize, event: StreamEvent) -> (a:
    StreamAction)
    requires
        i < old(streams)@.len(),
    ensures
        final(streams)@.len() == old(streams)@.len(),
        (final(streams)@[i as int], a) == spec_stream_step(old(streams)@[i as int], event),
        forall|j: int| 0 <= j < old(streams)@.len() && j != i ==> final(streams)@[j] == old(
            streams,
        )@[j],
{
    let mut s = streams[i];
    let a = s.step(event);
    streams[i] = s;
    a
}

/// Endpoint independence, the outcome half: how a delivery went — accepted
/// or failed — makes no difference at all to the stream. The next tick
/// stays one interval after the last either way, so an endpoint answering
/// errors on every tick keeps exactly the schedule of a healthy one.
pub proof fn lemma_outcome_independent(s: StreamState, ok1: bool, ok2: bool)
    ensures
        spec_stream_step(s, StreamEvent::DeliveryFinished { delivered: ok1 })
            == spec_stream_step(s, StreamEvent::DeliveryFinished { delivered: ok2 }),
{
}

/// The state a stream reaches after a whole run of events.
pub open spec fn spec_stream_run(s: StreamState, events: Seq<StreamEvent>) -> StreamState
    decreases events.len(),
{
    if events.len() == 0 {
        s
    } else {
        spec_stream_run(spec_stream_step(s, events[0]).0, events.drop_first())
    }
}

/// Whether any step of a run asks the runner to send.
pub open spec fn spec_run_sends(s: StreamState, events: Seq<StreamEvent>) -> bool
    decreases events.len(),
{
    if events.len() == 0 {
        false
    } else {
        spec_stream_step(s, events[0]).1 is Send || spec_run_sends(
            spec_stream_step(s, events[0]).0,
            events.drop_first(),
        )
    }
}

/// Shutdown: cancellation takes effect on the spot — from any phase, even
/// mid-send — and needs nothing to drain first.
pub proof fn lemma_cancel_is_immediate(s: StreamState)
    ensures
        spec_stream_step(s, StreamEvent::CancelRequested).0.phase is Cancelled,
        spec_stream_step(s, StreamEvent::CancelRequested).1 is DoNothing,
{
}

/// Shutdown: a cancelled stream is cancelled for good. Whatever events
/// still arrive — pending timers firing, in-flight deliveries reporting
/// back, repeated cancellations — the stream never schedules another send.
pub proof fn lemma_no_send_after_cancel(s: StreamState, events: Seq<StreamEvent>)
    requires
        s.phase is Cancelled,
    ensures
        spec_stream_run(s, events) == s,
        !spec_run_sends(s, events),
    decreases events.len(),
{
    if events.len() > 0 {
        lemma_no_send_after_cancel(s, events.drop_first());
    }
}

} // verus!
