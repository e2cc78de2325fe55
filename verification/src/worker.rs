//! The background side of a session: the scan loop and its teardown, as a
//! sequence of actions that the caller performs one by one.

use crate::event::{Error, Event, EventView};
use vstd::prelude::*;

verus! {

/// What the worker's caller has to do before it asks again.
#[derive(Clone, Copy, Debug, PartialEq, Eq, Structural)]
pub enum WorkerAction {
    /// Capture one frame, handle it, and report what `notice` makes of it.
    Capture,
    /// Give up the camera and the texture.
    Release,
    /// Tell the subscriber that the session has ended.
    EmitDisposed,
    /// Go to the rendezvous and wait there for the next subscription.
    Arrive,
    /// Nothing is left to do.
    Finished,
}

/// How far a session's worker has come. It holds the camera and the texture
/// while it scans, and at no later time.
#[derive(Clone, Copy, Debug, PartialEq, Eq, Structural)]
pub enum ScanWorker {
    /// In the scan loop.
    Scanning,
    /// Out of the loop; camera and texture are given up.
    Released,
    /// The end of the session has been emitted.
    Ended,
    /// At the rendezvous.
    Arrived,
    /// Past the rendezvous.
    Done,
}

impl ScanWorker {
    /// The action that a worker in this state takes when it has read `stop`
    /// from the stop signal.
    pub open spec fn action(self, stop: bool) -> WorkerAction {
        match self {
            ScanWorker::Scanning => if stop {
                WorkerAction::Release
            } else {
                WorkerAction::Capture
            },
            ScanWorker::Released => WorkerAction::EmitDisposed,
            ScanWorker::Ended => WorkerAction::Arrive,
            ScanWorker::Arrived => WorkerAction::Finished,
            ScanWorker::Done => WorkerAction::Finished,
        }
    }

    /// The state that follows when the worker has read `stop` from the stop
    /// signal.
    pub open spec fn after(self, stop: bool) -> ScanWorker {
        match self {
            ScanWorker::Scanning => if stop {
                ScanWorker::Released
            } else {
                ScanWorker::Scanning
            },
            ScanWorker::Released => ScanWorker::Ended,
            ScanWorker::Ended => ScanWorker::Arrived,
            ScanWorker::Arrived => ScanWorker::Done,
            ScanWorker::Done => ScanWorker::Done,
        }
    }

    /// Whether a worker in this state holds the camera and the texture.
    pub open spec fn holds(self) -> bool {
        self == ScanWorker::Scanning
    }

    /// Whether the end of the session has been emitted.
    pub open spec fn ended(self) -> bool {
        self == ScanWorker::Ended || self == ScanWorker::Arrived || self == ScanWorker::Done
    }

    /// The worker of a session that has just started.
    pub fn new() -> (worker: ScanWorker)
        ensures
            worker == ScanWorker::Scanning,
    {
        ScanWorker::Scanning
    }

    /// One step of the worker, given the value `stop` that it has just read
    /// from the stop signal. The signal matters in the scan loop only: once
    /// out of it, the worker releases, emits the end, arrives, and is done,
    /// in that order.
    pub fn step(&mut self, stop: bool) -> (action: WorkerAction)
        ensures
            action == old(self).action(stop),
            *final(self) == old(self).after(stop),
    {
        match self {
            ScanWorker::Scanning => {
                if stop {
                    *self = ScanWorker::Released;
                    WorkerAction::Release
                } else {
                    WorkerAction::Capture
                }
            },
            ScanWorker::Released => {
                *self = ScanWorker::Ended;
                WorkerAction::EmitDisposed
            },
            ScanWorker::Ended => {
                *self = ScanWorker::Arrived;
                WorkerAction::Arrive
            },
            ScanWorker::Arrived => {
                *self = ScanWorker::Done;
                WorkerAction::Finished
            },
            ScanWorker::Done => WorkerAction::Finished,
        }
    }
}

/// What the subscriber hears of one frame.
#[derive(Clone, Debug, PartialEq, Eq)]
pub enum Notice {
    /// An event for the channel.
    Emit(Event),
    /// A failure, reported beside the events; carries its text.
    Fault(String),
    /// Nothing.
    Quiet,
}

/// A notice as a mathematical value.
pub enum NoticeView {
    Emit(EventView),
    Fault(Seq<char>),
    Quiet,
}

impl View for Notice {
    type V = NoticeView;

    open spec fn view(&self) -> NoticeView {
        match self {
            Notice::Emit(event) => NoticeView::Emit(event@),
            Notice::Fault(text) => NoticeView::Fault(text@),
            Notice::Quiet => NoticeView::Quiet,
        }
    }
}

/// What the subscriber hears of a frame with this outcome: a code that is not
/// empty becomes an event, a failure is reported by its text, and anything
/// else passes in silence.
pub open spec fn noted(outcome: Result<Option<String>, Error>) -> NoticeView {
    match outcome {
        Ok(Some(code)) => if code@.len() > 0 {
            NoticeView::Emit(EventView::QrCode(code@))
        } else {
            NoticeView::Quiet
        },
        Ok(None) => NoticeView::Quiet,
        Err(error) => NoticeView::Fault(error.description()),
    }
}

/// Decides what the subscriber hears of one frame. A failure never ends the
/// loop: it is a notice like any other.
pub fn notice(outcome: Result<Option<String>, Error>) -> (heard: Notice)
    ensures
        heard@ == noted(outcome),
{
    match outcome {
        Ok(Some(code)) => {
            if code.as_str().is_empty() {
                Notice::Quiet
            } else {
                Notice::Emit(Event::QrCode(code))
            }
        },
        Ok(None) => Notice::Quiet,
        Err(error) => Notice::Fault(error.message()),
    }
}

} // verus!
