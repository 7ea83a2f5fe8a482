//! A background-worker event bridge.
//!
//! A bridge couples a long-lived background worker to a single consumer
//! through two bounded, unidirectional channels: the consumer submits
//! [`events::Action`] values over a send-only handle, and the worker answers
//! with an ordered stream of [`events::Event`] values. The first event of
//! every bridge is the `Ready` handshake; after it the worker runs each
//! requested stage serially, emitting a `*Started` event before the work and
//! the matching `*Done` event after it, until cleanup terminates the bridge
//! or the consumer abandons the event stream.
//!
//! This crate verifies the control core of that pattern: the state machine
//! in [`bridge`] that decides which submissions are accepted, which event
//! each accepted action produces, and in which order events may appear. The
//! trace theory in [`trace`] proves the ordering laws (a unique leading
//! `Ready`, strict started/done pairing per stage, failure as a terminal
//! event). Channel plumbing and an executor are left to the surrounding
//! application, which drives this machine one decision at a time.

pub mod bridge;
pub mod consumer;
pub mod events;
pub mod trace;
