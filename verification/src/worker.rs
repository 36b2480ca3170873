//! The steps of the thread that listens to the detector.

use vstd::prelude::*;

use crate::detect::MeetingState;

verus! {

/// What polling the channel that stops the thread gave.
#[derive(Clone, Copy, Debug, PartialEq, Eq, Structural)]
pub enum StopPoll {
    Stop,
    Disconnected,
    Empty,
}

/// What waiting for the detector gave.
#[derive(Clone, Copy, Debug, PartialEq, Eq, Structural)]
pub enum DetectorPoll {
    State(MeetingState),
    Timeout,
    Disconnected,
}

/// What the thread does next.
#[derive(Clone, Copy, Debug, PartialEq, Eq, Structural)]
pub enum WorkerStep {
    /// Apply what the detector reported, if it did, and then poll the clock.
    Tick(Option<MeetingState>),
    /// End.
    Exit,
}

/// Whether the thread goes on to listen to the detector: until it is told to stop, or nobody is
/// left who could tell it.
pub fn keeps_running(poll: StopPoll) -> (r: bool)
    ensures
        r <==> poll == StopPoll::Empty,
{
    match poll {
        StopPoll::Empty => true,
        StopPoll::Stop | StopPoll::Disconnected => false,
    }
}

/// What the thread does after it waited for the detector.
pub fn worker_step(poll: DetectorPoll) -> (step: WorkerStep)
    ensures
        step == (match poll {
            DetectorPoll::State(state) => WorkerStep::Tick(Some(state)),
            DetectorPoll::Timeout => WorkerStep::Tick(None),
            DetectorPoll::Disconnected => WorkerStep::Exit,
        }),
{
    match poll {
        DetectorPoll::State(state) => WorkerStep::Tick(Some(state)),
        DetectorPoll::Timeout => WorkerStep::Tick(None),
        DetectorPoll::Disconnected => WorkerStep::Exit,
    }
}

} // verus!
