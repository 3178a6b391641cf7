use vstd::prelude::*;

use crate::client::EguiMessage;
use crate::topics::{apply_event, Topics};

verus! {

/// What one non-blocking receive on the event queue gave.
#[derive(Debug)]
pub enum Polled {
    /// No event was waiting.
    Empty,
    /// The sending side is gone: the supervisor has stopped.
    Disconnected,
    Received(EguiMessage),
}

/// What the render loop does after a frame's poll.
#[derive(Clone, Copy, Debug, PartialEq, Eq, Structural)]
pub enum FrameOutcome {
    Continue,
    /// The supervisor stopped unexpectedly; nothing more can arrive, and the
    /// process has to end.
    SupervisorGone,
}

/// Handles the one event poll of a frame: a received event is folded into
/// the map, an empty queue changes nothing, and a closed queue means the
/// supervisor is gone.
pub fn apply_poll(topics: &mut Topics, polled: Polled) -> (r: FrameOutcome)
    requires
        old(topics).wf(),
    ensures
        final(topics).wf(),
        match polled {
            Polled::Empty => r == FrameOutcome::Continue && final(topics)@ == old(topics)@,
            Polled::Disconnected => r == FrameOutcome::SupervisorGone && final(topics)@ == old(
                topics,
            )@,
            Polled::Received(msg) => r == FrameOutcome::Continue && final(topics)@ == apply_event(
                old(topics)@,
                msg,
            ),
        },
{
    match polled {
        Polled::Empty => FrameOutcome::Continue,
        Polled::Disconnected => FrameOutcome::SupervisorGone,
        Polled::Received(msg) => {
            topics.apply(msg);
            FrameOutcome::Continue
        },
    }
}

} // verus!
