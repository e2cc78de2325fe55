//! Continuous QR-code scanning behind an event subscription: the decisions of
//! the session lifecycle, of the scan loop and of a single frame, with the
//! protocol that keeps one session's teardown ahead of the next one's setup.

pub mod controller;
pub mod event;
pub mod protocol;
pub mod scanner;
pub mod worker;
