//! The telemetry reader: the decisions of the background loop that polls
//! the registry, receives, decodes and publishes.
//!
//! The loop itself blocks and sleeps, which is the caller's part. After each
//! thing that happens the caller asks `reader_step` what to do next.

use vstd::prelude::*;
use crate::command::{StreamCommand, ground_station_header, stream_command, stream_request_spec};
use crate::decoder::{decode, decoded, event_model};
use crate::event::{EventModel, TelemetryEvent};
use crate::message::WireMessage;
use crate::registry::Registry;

verus! {

/// Milliseconds that the reader rests between two iterations.
pub const POLL_INTERVAL_MS: u64 = 50;

/// Where the reader stands within an iteration.
#[derive(Clone, Copy, Debug, PartialEq, Eq, Structural)]
pub enum ReaderPhase {
    /// About to look into the registry.
    Polling,
    /// Blocked in a receive on the handle it found.
    Receiving,
    /// Resting before the next iteration.
    Resting,
}

/// What happened since the reader was last told what to do.
#[derive(Clone, Copy, Debug, PartialEq, Eq, Structural)]
pub enum ReaderEvent {
    /// The registry held a handle.
    HandlePresent,
    /// The registry was empty.
    HandleAbsent,
    /// The receive delivered a message.
    Received(WireMessage),
    /// The receive ended in an error.
    ReceiveFailed,
    /// The rest is over.
    Rested,
}

/// What the reader does next.
#[derive(Clone, Copy, Debug, PartialEq, Eq, Structural)]
pub enum ReaderAction {
    /// Look into the registry, under its lock, and let the lock go.
    Poll,
    /// Receive one message from the handle, without holding the lock.
    Receive,
    /// Sleep for the given number of milliseconds.
    Rest { millis: u64 },
}

/// The reader's answer to an event.
#[derive(Clone, Debug, PartialEq, Eq)]
pub struct ReaderStep {
    /// The phase the reader is in from now on.
    pub phase: ReaderPhase,
    /// The event to publish under its topic before acting, if any.
    pub publish: Option<TelemetryEvent>,
    /// What to do next.
    pub action: ReaderAction,
}

/// What starting the telemetry stream comes to.
#[derive(Clone, Debug, PartialEq, Eq)]
pub struct StreamStart {
    /// The request to send over the present handle, if there is one.
    pub command: Option<StreamCommand>,
    /// The first step of the reader to run in the background.
    pub reader: ReaderStep,
}

/// A reader's answer, with the event to publish as what it says.
pub struct StepModel {
    pub phase: ReaderPhase,
    pub publish: Option<EventModel>,
    pub action: ReaderAction,
}

impl View for ReaderStep {
    type V = StepModel;

    open spec fn view(&self) -> StepModel {
        StepModel {
            phase: self.phase,
            publish: event_model(self.publish),
            action: self.action,
        }
    }
}

/// The answer that sends the reader to rest without publishing.
pub open spec fn rest() -> StepModel {
    StepModel {
        phase: ReaderPhase::Resting,
        publish: None,
        action: ReaderAction::Rest { millis: POLL_INTERVAL_MS },
    }
}

/// The answer that begins an iteration.
pub open spec fn poll() -> StepModel {
    StepModel { phase: ReaderPhase::Polling, publish: None, action: ReaderAction::Poll }
}

/// The reader's rule.
///
/// * polling: with a handle it receives; without one it rests;
/// * receiving: a message is decoded, its event, if it has one, is
///   published, and the reader rests; an error is passed over and the
///   reader rests;
/// * resting: when the rest is over it polls again;
/// * an event that does not belong to the phase costs the iteration and
///   nothing else: the reader rests.
pub open spec fn next_step(phase: ReaderPhase, event: ReaderEvent) -> StepModel {
    match (phase, event) {
        (ReaderPhase::Polling, ReaderEvent::HandlePresent) => StepModel {
            phase: ReaderPhase::Receiving,
            publish: None,
            action: ReaderAction::Receive,
        },
        (ReaderPhase::Polling, ReaderEvent::HandleAbsent) => rest(),
        (ReaderPhase::Receiving, ReaderEvent::Received(msg)) => StepModel {
            phase: ReaderPhase::Resting,
            publish: decoded(msg),
            action: ReaderAction::Rest { millis: POLL_INTERVAL_MS },
        },
        (ReaderPhase::Receiving, ReaderEvent::ReceiveFailed) => rest(),
        (ReaderPhase::Resting, ReaderEvent::Rested) => poll(),
        _ => rest(),
    }
}

/// The request to send before a reader is started: the stream request
/// where a handle is present, nothing where none is.
pub open spec fn opening_command<H>(slot: Option<H>) -> Option<StreamCommand> {
    if slot is Some {
        Some(StreamCommand { header: ground_station_header(), request: stream_request_spec() })
    } else {
        None
    }
}

/// Starts a reader. Says which request to send first, over the handle that
/// is present, and hands out the first step of a new reader. A failure to
/// send the request is passed over. Every call starts a reader of its own,
/// connected or not.
pub fn start_telemetry_stream<H>(registry: &Registry<H>) -> (start: StreamStart)
    ensures
        start.command == opening_command(registry@),
        start.command is Some <==> registry@ is Some,
        start.reader@ == poll(),
{
    let command = if registry.is_connected() {
        Some(stream_command())
    } else {
        None
    };
    StreamStart { command, reader: reader_start() }
}

/// The first answer of a freshly started reader: poll.
pub fn reader_start() -> (step: ReaderStep)
    ensures
        step@ == poll(),
{
    ReaderStep { phase: ReaderPhase::Polling, publish: None, action: ReaderAction::Poll }
}

/// Tells the reader what to do after an event.
pub fn reader_step(phase: ReaderPhase, event: ReaderEvent) -> (step: ReaderStep)
    ensures
        step@ == next_step(phase, event),
{
    let rest = ReaderStep {
        phase: ReaderPhase::Resting,
        publish: None,
        action: ReaderAction::Rest { millis: POLL_INTERVAL_MS },
    };
    match phase {
        ReaderPhase::Polling => match event {
            ReaderEvent::HandlePresent => ReaderStep {
                phase: ReaderPhase::Receiving,
                publish: None,
                action: ReaderAction::Receive,
            },
            _ => rest,
        },
        ReaderPhase::Receiving => match event {
            ReaderEvent::Received(msg) => ReaderStep {
                phase: ReaderPhase::Resting,
                publish: decode(&msg),
                action: ReaderAction::Rest { millis: POLL_INTERVAL_MS },
            },
            _ => rest,
        },
        ReaderPhase::Resting => match event {
            ReaderEvent::Rested => ReaderStep {
                phase: ReaderPhase::Polling,
                publish: None,
                action: ReaderAction::Poll,
            },
            _ => rest,
        },
    }
}

/// The reader never stops: whatever happens, it either goes on within the
/// iteration or rests, and once rested it polls the registry anew.
pub proof fn lemma_reader_goes_on(phase: ReaderPhase, event: ReaderEvent)
    ensures
        ({
            let step = next_step(phase, event);
            match step.action {
                ReaderAction::Poll => step.phase == ReaderPhase::Polling,
                ReaderAction::Receive => step.phase == ReaderPhase::Receiving,
                ReaderAction::Rest { millis } => {
                    &&& millis == POLL_INTERVAL_MS
                    &&& step.phase == ReaderPhase::Resting
                    &&& next_step(step.phase, ReaderEvent::Rested) == poll()
                },
            }
        }),
{
}

/// A receive error ends the iteration and nothing else: nothing is
/// published, the reader rests, and then polls the registry again, where it
/// receives from whatever handle is there by then.
pub proof fn lemma_receive_error_is_passed_over()
    ensures
        next_step(ReaderPhase::Receiving, ReaderEvent::ReceiveFailed) == rest(),
        next_step(rest().phase, ReaderEvent::Rested) == poll(),
        next_step(poll().phase, ReaderEvent::HandlePresent).action == ReaderAction::Receive,
        next_step(poll().phase, ReaderEvent::HandleAbsent) == rest(),
{
}

/// The reader publishes nothing of its own: an event goes out only for a
/// message that was received, and it is the event the decoder gives.
pub proof fn lemma_publishes_what_was_decoded(phase: ReaderPhase, event: ReaderEvent)
    ensures
        next_step(phase, event).publish is Some ==> {
            &&& phase == ReaderPhase::Receiving
            &&& event is Received
            &&& next_step(phase, event).publish == decoded(event->Received_0)
        },
        !(event is Received) ==> next_step(phase, event).publish is None,
{
}

} // verus!
