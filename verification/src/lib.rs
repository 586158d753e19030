//! Typed marshalling of mpv property values and decoding of mpv events.
//!
//! The native library hands out records of raw memory: a value behind a
//! pointer whose shape a format tag announces, and event records whose payload
//! depends on the event kind. This crate works on memory-safe images of those
//! records and turns them into typed values, with every outcome stated in the
//! contracts of its functions.

pub mod error;
pub mod event;
pub mod format;
pub mod schema;
pub mod text;

pub use crate::error::{ret_to_result, DecodeError, Error};
pub use crate::event::{to_event, Event, EventData};
pub use crate::format::{Double, Format, MpvFormat, NativeValue};
pub use crate::schema::{MpvEndFileReason, MpvEventId, MpvInternalFormat, MpvLogLevel};
