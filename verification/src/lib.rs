//! Retry and network-availability decisions for requests that stream model responses.
//!
//! The crate holds the rules only. Every function here computes on plain values; the
//! sockets, the timers and the random numbers belong to the program around it, which
//! performs one action at a time and reports back what came of it.

pub mod duration;
pub mod error;
pub mod network_availability;
pub mod protocol;
pub mod responses_retry;
pub mod retry;
pub mod stream_retry;
pub mod stream_retry_course;
pub mod stream_retry_laws;
pub mod text;

pub use duration::Duration;
