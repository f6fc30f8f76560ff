//! Debug capture and failure classification for a streaming relay.
//!
//! The crate holds the pure parts of a relay that forwards streamed model
//! responses: a tap that copies what it forwards, a parser that splits a
//! captured event stream into reasoning and visible text, the planning of the
//! debug artifact that is written afterwards, a classifier for stream
//! failures, and the error type of the relay's outer boundary.

pub mod debug_logger;
pub mod error;
pub mod error_classifier;
pub mod event_stream;
pub mod json;
pub mod stream_tap;
pub mod text;
pub mod timestamp;
