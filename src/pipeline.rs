//! The orchestration decisions, as two state machines. The control
//! machine polls the hotkey, starts and stops capture, applies the
//! minimum-duration gate and hands finished text on; the delivery
//! machine takes handed-on text through optional improvement to
//! insertion. Whoever runs a machine performs its actions and feeds
//! back what came of them as events.

use vstd::prelude::*;

verus! {

/// Captures shorter than this many samples (100 ms at 16 kHz) are
/// dropped without transcription.
pub const MIN_CAPTURE_SAMPLES: usize = 1600;

/// Where the control thread stands in a cycle.
#[derive(Clone, Copy, Debug, PartialEq, Eq, Structural)]
pub enum ControlState {
    Idle,
    Recording,
    Transcribing,
}

/// What the control thread observed or was told.
#[derive(Debug)]
pub enum ControlEvent {
    /// The hotkey's `held` signal, read on a poll tick.
    Poll { held: bool },
    /// Capture stopped; this many samples (at 16 kHz) were kept.
    Captured { samples: usize },
    /// The transcriber finished: some text, nothing recognised, or a
    /// failure with its message.
    Transcribed(Result<Option<String>, String>),
}

/// What the control thread is to do next.
#[derive(Debug)]
pub enum ControlAction {
    /// Sleep one poll interval and poll again.
    Wait,
    /// Open the input stream and start accumulating samples.
    StartCapture,
    /// Stop the stream, end the hotkey session, and report the number
    /// of samples kept.
    StopCapture,
    /// Run the transcriber over the captured samples.
    Transcribe,
    /// Nothing to deliver this cycle; go back to waiting.
    Discard,
    /// The transcriber failed; report the message and go back to waiting.
    Report(String),
    /// Hand the text on to delivery.
    Handoff(String),
}

/// The control machine's step: the next state and the action.
#[derive(Debug)]
pub struct ControlStep {
    pub state: ControlState,
    pub action: ControlAction,
}

/// Decides one control event. The press edge starts capture and the
/// release edge stops it; a capture below `MIN_CAPTURE_SAMPLES` is
/// discarded, a longer one transcribed; recognised text is handed on,
/// an empty result dropped and a failure reported. An event that does
/// not belong to the current state changes nothing.
pub fn control_step(state: ControlState, event: ControlEvent) -> (r: ControlStep)
    ensures
        match (state, event) {
            (ControlState::Idle, ControlEvent::Poll { held }) => if held {
                r.state == ControlState::Recording && r.action is StartCapture
            } else {
                r.state == ControlState::Idle && r.action is Wait
            },
            (ControlState::Recording, ControlEvent::Poll { held }) => if held {
                r.state == ControlState::Recording && r.action is Wait
            } else {
                r.state == ControlState::Transcribing && r.action is StopCapture
            },
            (ControlState::Transcribing, ControlEvent::Captured { samples }) => if samples
                < MIN_CAPTURE_SAMPLES {
                r.state == ControlState::Idle && r.action is Discard
            } else {
                r.state == ControlState::Transcribing && r.action is Transcribe
            },
            (ControlState::Transcribing, ControlEvent::Transcribed(result)) => r.state
                == ControlState::Idle && match result {
                Ok(Some(text)) => if text@.len() == 0 {
                    r.action is Discard
                } else {
                    r.action == ControlAction::Handoff(text)
                },
                Ok(None) => r.action is Discard,
                Err(message) => r.action == ControlAction::Report(message),
            },
            _ => r.state == state && r.action is Wait,
        },
        r.action is Transcribe ==> (event matches ControlEvent::Captured { samples } && samples
            >= MIN_CAPTURE_SAMPLES),
{
    match (state, event) {
        (ControlState::Idle, ControlEvent::Poll { held }) => {
            if held {
                ControlStep { state: ControlState::Recording, action: ControlAction::StartCapture }
            } else {
                ControlStep { state: ControlState::Idle, action: ControlAction::Wait }
            }
        },
        (ControlState::Recording, ControlEvent::Poll { held }) => {
            if held {
                ControlStep { state: ControlState::Recording, action: ControlAction::Wait }
            } else {
                ControlStep { state: ControlState::Transcribing, action: ControlAction::StopCapture }
            }
        },
        (ControlState::Transcribing, ControlEvent::Captured { samples }) => {
            if samples < MIN_CAPTURE_SAMPLES {
                ControlStep { state: ControlState::Idle, action: ControlAction::Discard }
            } else {
                ControlStep { state: ControlState::Transcribing, action: ControlAction::Transcribe }
            }
        },
        (ControlState::Transcribing, ControlEvent::Transcribed(result)) => {
            let action = match result {
                Ok(Some(text)) => {
                    if text.as_str().is_empty() {
                        ControlAction::Discard
                    } else {
                        ControlAction::Handoff(text)
                    }
                },
                Ok(None) => ControlAction::Discard,
                Err(message) => ControlAction::Report(message),
            };
            ControlStep { state: ControlState::Idle, action }
        },
        (s, _) => ControlStep { state: s, action: ControlAction::Wait },
    }
}

/// Where the delivery thread stands with one handed-on text.
#[derive(Debug)]
pub enum DeliveryState {
    Idle,
    /// Waiting for the improvement collaborator; `original` is what
    /// gets inserted should it fail.
    Improving { original: String },
    Inserting,
}

/// What the delivery thread received or was told.
#[derive(Debug)]
pub enum DeliveryEvent {
    /// A text arrived over the handoff channel.
    Received(String),
    /// The improvement collaborator answered: better text, or a failure.
    Improved(Result<String, String>),
    /// The injector was called, whatever came of it.
    Inserted,
}

/// What the delivery thread is to do next.
#[derive(Debug)]
pub enum DeliveryAction {
    /// Wait for the next handed-on text.
    Wait,
    /// Ask the improvement collaborator to rework this text.
    Improve(String),
    /// Deliver this text to the focused application.
    Insert(String),
}

/// The delivery machine's step: the next state and the action.
#[derive(Debug)]
pub struct DeliveryStep {
    pub state: DeliveryState,
    pub action: DeliveryAction,
}

/// Decides one delivery event. A received text goes to the improvement
/// collaborator when `improve` is on and straight to insertion
/// otherwise; an improved text is inserted, and a failed improvement
/// falls back to the original; after insertion, success or not, the
/// machine waits again. An event that does not belong to the current
/// state changes nothing.
pub fn delivery_step(state: DeliveryState, event: DeliveryEvent, improve: bool) -> (r: DeliveryStep)
    ensures
        match (state, event) {
            (DeliveryState::Idle, DeliveryEvent::Received(text)) => if improve {
                r.state == DeliveryState::Improving { original: text } && r.action
                    == DeliveryAction::Improve(text)
            } else {
                r.state is Inserting && r.action == DeliveryAction::Insert(text)
            },
            (DeliveryState::Improving { original }, DeliveryEvent::Improved(result)) => r.state
                is Inserting && match result {
                Ok(better) => r.action == DeliveryAction::Insert(better),
                Err(_) => r.action == DeliveryAction::Insert(original),
            },
            (DeliveryState::Inserting, DeliveryEvent::Inserted) => r.state is Idle && r.action is Wait,
            (s, _) => r.state == s && r.action is Wait,
        },
{
    match (state, event) {
        (DeliveryState::Idle, DeliveryEvent::Received(text)) => {
            if improve {
                let original = text.clone();
                DeliveryStep {
                    state: DeliveryState::Improving { original },
                    action: DeliveryAction::Improve(text),
                }
            } else {
                DeliveryStep { state: DeliveryState::Inserting, action: DeliveryAction::Insert(text) }
            }
        },
        (DeliveryState::Improving { original }, DeliveryEvent::Improved(result)) => {
            let text = match result {
                Ok(better) => better,
                Err(_) => original,
            };
            DeliveryStep { state: DeliveryState::Inserting, action: DeliveryAction::Insert(text) }
        },
        (DeliveryState::Inserting, DeliveryEvent::Inserted) => {
            DeliveryStep { state: DeliveryState::Idle, action: DeliveryAction::Wait }
        },
        (s, _) => DeliveryStep { state: s, action: DeliveryAction::Wait },
    }
}

} // verus!
