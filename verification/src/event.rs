//! What the subscriber is told: the handle of a session, the events of its
//! life, and the failures of the capture device.

use vstd::prelude::*;

verus! {

/// Identity of an active session as the subscriber sees it. It owns nothing.
#[derive(Clone, Copy, Debug, PartialEq, Eq, Structural)]
pub struct Handle {
    pub texture_id: i64,
    pub width: i64,
    pub height: i64,
}

/// One message to the subscriber.
#[derive(Clone, Debug, PartialEq, Eq)]
pub enum Event {
    /// A session has started; carries its handle.
    Initialized(Handle),
    /// A code was read from a frame; carries its text.
    QrCode(String),
    /// The session has ended and holds nothing any more.
    Disposed,
}

/// An event as a mathematical value.
pub enum EventView {
    Initialized(Handle),
    QrCode(Seq<char>),
    Disposed,
}

impl View for Event {
    type V = EventView;

    open spec fn view(&self) -> EventView {
        match self {
            Event::Initialized(handle) => EventView::Initialized(*handle),
            Event::QrCode(code) => EventView::QrCode(code@),
            Event::Disposed => EventView::Disposed,
        }
    }
}

/// Why the capture device could not serve.
#[derive(Clone, Debug, PartialEq, Eq)]
pub enum Error {
    /// The default camera could not be opened.
    OpenCamera,
    /// The capture library failed; carries its own description of the failure.
    OpenCv(String),
}

impl Error {
    /// The text that reports this failure to the subscriber.
    pub open spec fn description(&self) -> Seq<char> {
        match self {
            Error::OpenCamera => "unable to open default camera"@,
            Error::OpenCv(text) => text@,
        }
    }

    /// The text that reports this failure to the subscriber.
    pub fn message(&self) -> (text: String)
        ensures
            text@ == self.description(),
    {
        match self {
            Error::OpenCamera => "unable to open default camera".to_owned(),
            Error::OpenCv(text) => text.clone(),
        }
    }
}

} // verus!
