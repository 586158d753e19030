//! Events: from the record that the native library delivers to a typed event.
//!
//! A record names its kind, an error code and the caller's own number for the
//! request, and points to a payload whose shape depends on the kind.
//! [`EventData`] is the image of that payload and [`to_event`] the decoder.

use crate::error::{outcome_of, ret_to_result, DecodeError, Error};
use crate::format::{outcome_view, value_of, Format, FormatView, NativeValue, NativeView};
use crate::schema::{MpvEndFileReason, MpvEventId, MpvInternalFormat, MpvLogLevel};
use crate::text::{decode_text, pointee, text_of};
use vstd::prelude::*;

verus! {

/// What the payload pointer of an event record leads to.
#[derive(Clone, Copy, Debug, PartialEq, Eq)]
pub enum EventData<'a, 'b, 'c> {
    /// The payload pointer is null.
    Absent,
    /// The record of a log message: three `char *` and the number of the log
    /// level.
    LogMessage {
        prefix: Option<&'a [u8]>,
        level: Option<&'b [u8]>,
        text: Option<&'c [u8]>,
        log_level: i32,
    },
    /// The record of a property: the `char *` of its name, the number of the
    /// format tag and what lies behind the data pointer.
    Property { name: Option<&'a [u8]>, format: i32, data: NativeValue<'b> },
    /// The record of an end of file: the number of the reason, and the error
    /// code of its own that the record carries.
    EndFile { reason: i32, error: i32 },
}

/// A payload with its buffers taken as sequences of bytes.
pub enum EventDataView {
    Absent,
    LogMessage {
        prefix: Option<Seq<u8>>,
        level: Option<Seq<u8>>,
        text: Option<Seq<u8>>,
        log_level: i32,
    },
    Property { name: Option<Seq<u8>>, format: i32, data: NativeView },
    EndFile { reason: i32, error: i32 },
}

impl<'a, 'b, 'c> View for EventData<'a, 'b, 'c> {
    type V = EventDataView;

    open spec fn view(&self) -> EventDataView {
        match *self {
            EventData::Absent => EventDataView::Absent,
            EventData::LogMessage { prefix, level, text, log_level } => EventDataView::LogMessage {
                prefix: pointee(prefix),
                level: pointee(level),
                text: pointee(text),
                log_level,
            },
            EventData::Property { name, format, data } => EventDataView::Property {
                name: pointee(name),
                format,
                data: data@,
            },
            EventData::EndFile { reason, error } => EventDataView::EndFile { reason, error },
        }
    }
}

/// An event of the player. Text is borrowed from the record that the event
/// was read from and lives no longer than that record.
#[derive(Clone, Copy, Debug, PartialEq, Eq)]
pub enum Event<'a, 'b, 'c> {
    Shutdown,
    LogMessage { prefix: &'a str, level: &'b str, text: &'c str, log_level: MpvLogLevel },
    GetPropertyReply { name: &'a str, result: Result<Format<'b>, Error>, reply_userdata: u32 },
    SetPropertyReply(Result<(), Error>, u32),
    CommandReply(Result<(), Error>, u32),
    StartFile,
    EndFile(Result<MpvEndFileReason, Error>),
    FileLoaded,
    TracksChanged,
    TrackSwitched,
    Idle,
    Pause,
    Unpause,
    Tick,
    ClientMessage,
    VideoReconfig,
    AudioReconfig,
    MetadataUpdate,
    Seek,
    PlaybackRestart,
    PropertyChange { name: &'a str, change: Format<'b>, reply_userdata: u32 },
    ChapterChange,
    QueueOverflow,
    /// The event of a kind that never carries anything.
    Unused,
}

/// An event with its text taken as sequences of characters.
pub enum EventView {
    Shutdown,
    LogMessage { prefix: Seq<char>, level: Seq<char>, text: Seq<char>, log_level: MpvLogLevel },
    GetPropertyReply { name: Seq<char>, result: Result<FormatView, Error>, reply_userdata: u32 },
    SetPropertyReply(Result<(), Error>, u32),
    CommandReply(Result<(), Error>, u32),
    StartFile,
    EndFile(Result<MpvEndFileReason, Error>),
    FileLoaded,
    TracksChanged,
    TrackSwitched,
    Idle,
    Pause,
    Unpause,
    Tick,
    ClientMessage,
    VideoReconfig,
    AudioReconfig,
    MetadataUpdate,
    Seek,
    PlaybackRestart,
    PropertyChange { name: Seq<char>, change: FormatView, reply_userdata: u32 },
    ChapterChange,
    QueueOverflow,
    Unused,
}

impl<'a, 'b, 'c> View for Event<'a, 'b, 'c> {
    type V = EventView;

    open spec fn view(&self) -> EventView {
        match *self {
            Event::Shutdown => EventView::Shutdown,
            Event::LogMessage { prefix, level, text, log_level } => EventView::LogMessage {
                prefix: prefix@,
                level: level@,
                text: text@,
                log_level,
            },
            Event::GetPropertyReply { name, result, reply_userdata } => EventView::GetPropertyReply {
                name: name@,
                result: match result {
                    Ok(value) => Ok(value@),
                    Err(kind) => Err(kind),
                },
                reply_userdata,
            },
            Event::SetPropertyReply(result, reply_userdata) => EventView::SetPropertyReply(
                result,
                reply_userdata,
            ),
            Event::CommandReply(result, reply_userdata) => EventView::CommandReply(
                result,
                reply_userdata,
            ),
            Event::StartFile => EventView::StartFile,
            Event::EndFile(result) => EventView::EndFile(result),
            Event::FileLoaded => EventView::FileLoaded,
            Event::TracksChanged => EventView::TracksChanged,
            Event::TrackSwitched => EventView::TrackSwitched,
            Event::Idle => EventView::Idle,
            Event::Pause => EventView::Pause,
            Event::Unpause => EventView::Unpause,
            Event::Tick => EventView::Tick,
            Event::ClientMessage => EventView::ClientMessage,
            Event::VideoReconfig => EventView::VideoReconfig,
            Event::AudioReconfig => EventView::AudioReconfig,
            Event::MetadataUpdate => EventView::MetadataUpdate,
            Event::Seek => EventView::Seek,
            Event::PlaybackRestart => EventView::PlaybackRestart,
            Event::PropertyChange { name, change, reply_userdata } => EventView::PropertyChange {
                name: name@,
                change: change@,
                reply_userdata,
            },
            Event::ChapterChange => EventView::ChapterChange,
            Event::QueueOverflow => EventView::QueueOverflow,
            Event::Unused => EventView::Unused,
        }
    }
}

impl EventView {
    /// The kind of record that this event is read from.
    pub open spec fn kind(self) -> MpvEventId {
        match self {
            EventView::Shutdown => MpvEventId::MPV_EVENT_SHUTDOWN,
            EventView::LogMessage { .. } => MpvEventId::MPV_EVENT_LOG_MESSAGE,
            EventView::GetPropertyReply { .. } => MpvEventId::MPV_EVENT_GET_PROPERTY_REPLY,
            EventView::SetPropertyReply(..) => MpvEventId::MPV_EVENT_SET_PROPERTY_REPLY,
            EventView::CommandReply(..) => MpvEventId::MPV_EVENT_COMMAND_REPLY,
            EventView::StartFile => MpvEventId::MPV_EVENT_START_FILE,
            EventView::EndFile(_) => MpvEventId::MPV_EVENT_END_FILE,
            EventView::FileLoaded => MpvEventId::MPV_EVENT_FILE_LOADED,
            EventView::TracksChanged => MpvEventId::MPV_EVENT_TRACKS_CHANGED,
            EventView::TrackSwitched => MpvEventId::MPV_EVENT_TRACK_SWITCHED,
            EventView::Idle => MpvEventId::MPV_EVENT_IDLE,
            EventView::Pause => MpvEventId::MPV_EVENT_PAUSE,
            EventView::Unpause => MpvEventId::MPV_EVENT_UNPAUSE,
            EventView::Tick => MpvEventId::MPV_EVENT_TICK,
            EventView::ClientMessage => MpvEventId::MPV_EVENT_CLIENT_MESSAGE,
            EventView::VideoReconfig => MpvEventId::MPV_EVENT_VIDEO_RECONFIG,
            EventView::AudioReconfig => MpvEventId::MPV_EVENT_AUDIO_RECONFIG,
            EventView::MetadataUpdate => MpvEventId::MPV_EVENT_METADATA_UPDATE,
            EventView::Seek => MpvEventId::MPV_EVENT_SEEK,
            EventView::PlaybackRestart => MpvEventId::MPV_EVENT_PLAYBACK_RESTART,
            EventView::PropertyChange { .. } => MpvEventId::MPV_EVENT_PROPERTY_CHANGE,
            EventView::ChapterChange => MpvEventId::MPV_EVENT_CHAPTER_CHANGE,
            EventView::QueueOverflow => MpvEventId::MPV_EVENT_QUEUE_OVERFLOW,
            EventView::Unused => MpvEventId::MPV_EVENT_SCRIPT_INPUT_DISPATCH,
        }
    }
}

/// Whether records of this kind are decoded without a look at their error
/// code, their number or their payload.
pub open spec fn is_plain(event_id: MpvEventId) -> bool {
    match event_id {
        MpvEventId::MPV_EVENT_LOG_MESSAGE
        | MpvEventId::MPV_EVENT_GET_PROPERTY_REPLY
        | MpvEventId::MPV_EVENT_SET_PROPERTY_REPLY
        | MpvEventId::MPV_EVENT_COMMAND_REPLY
        | MpvEventId::MPV_EVENT_END_FILE
        | MpvEventId::MPV_EVENT_PROPERTY_CHANGE => false,
        _ => true,
    }
}

/// The number under which an event answers a request: the low 32 bits of the
/// number that the record carries.
pub open spec fn userdata_of(reply_userdata: u64) -> u32 {
    (reply_userdata % 0x1_0000_0000) as u32
}

/// The typed value behind a data pointer, by the number of its format tag. A
/// number that names no tag is answered like a tag that carries no typed
/// value: with `Flag(false)`.
pub open spec fn tagged_value_of(format: i32, data: NativeView) -> Result<FormatView, DecodeError> {
    match MpvInternalFormat::from_code(format as int) {
        Some(tag) => value_of(tag, data),
        None => Ok(FormatView::Flag(false)),
    }
}

/// The event of a log message.
pub open spec fn log_message_of(data: EventDataView) -> Result<Option<EventView>, DecodeError> {
    match data {
        EventDataView::LogMessage { prefix, level, text, log_level } => match text_of(prefix) {
            Err(e) => Err(e),
            Ok(prefix) => match text_of(level) {
                Err(e) => Err(e),
                Ok(level) => match text_of(text) {
                    Err(e) => Err(e),
                    Ok(text) => match MpvLogLevel::from_code(log_level as int) {
                        None => Err(DecodeError::UnknownLogLevel),
                        Some(log_level) => Ok(
                            Some(EventView::LogMessage { prefix, level, text, log_level }),
                        ),
                    },
                },
            },
        },
        EventDataView::Absent => Err(DecodeError::NullPointer),
        _ => Err(DecodeError::WrongPayload),
    }
}

/// The event of a reply to the read of a property. Where the error code
/// reports a failure the reply carries the kind of the failure, and what lies
/// behind the data pointer plays no part.
pub open spec fn get_property_reply_of(
    error: i32,
    reply_userdata: u64,
    data: EventDataView,
) -> Result<Option<EventView>, DecodeError> {
    match data {
        EventDataView::Property { name, format, data } => match text_of(name) {
            Err(e) => Err(e),
            Ok(name) => if error < 0 {
                match Error::from_code(error as int) {
                    None => Err(DecodeError::UnknownErrorCode),
                    Some(kind) => Ok(
                        Some(
                            EventView::GetPropertyReply {
                                name,
                                result: Err(kind),
                                reply_userdata: userdata_of(reply_userdata),
                            },
                        ),
                    ),
                }
            } else {
                match tagged_value_of(format, data) {
                    Err(e) => Err(e),
                    Ok(value) => Ok(
                        Some(
                            EventView::GetPropertyReply {
                                name,
                                result: Ok(value),
                                reply_userdata: userdata_of(reply_userdata),
                            },
                        ),
                    ),
                }
            },
        },
        EventDataView::Absent => Err(DecodeError::NullPointer),
        _ => Err(DecodeError::WrongPayload),
    }
}

/// The event of a change of an observed property: always a value, whatever
/// the error code.
pub open spec fn property_change_of(reply_userdata: u64, data: EventDataView) -> Result<
    Option<EventView>,
    DecodeError,
> {
    match data {
        EventDataView::Property { name, format, data } => match text_of(name) {
            Err(e) => Err(e),
            Ok(name) => match tagged_value_of(format, data) {
                Err(e) => Err(e),
                Ok(change) => Ok(
                    Some(
                        EventView::PropertyChange {
                            name,
                            change,
                            reply_userdata: userdata_of(reply_userdata),
                        },
                    ),
                ),
            },
        },
        EventDataView::Absent => Err(DecodeError::NullPointer),
        _ => Err(DecodeError::WrongPayload),
    }
}

/// The event of an end of file. The reason "error" makes it a failure of the
/// kind that the record's own error code names; every other reason makes it a
/// success that carries the reason.
pub open spec fn end_file_of(data: EventDataView) -> Result<Option<EventView>, DecodeError> {
    match data {
        EventDataView::EndFile { reason, error } => match MpvEndFileReason::from_code(
            reason as int,
        ) {
            None => Err(DecodeError::UnknownEndFileReason),
            Some(MpvEndFileReason::MPV_END_FILE_REASON_ERROR) => match Error::from_code(
                error as int,
            ) {
                None => Err(DecodeError::UnknownErrorCode),
                Some(kind) => Ok(Some(EventView::EndFile(Err(kind)))),
            },
            Some(reason) => Ok(Some(EventView::EndFile(Ok(reason)))),
        },
        EventDataView::Absent => Err(DecodeError::NullPointer),
        _ => Err(DecodeError::WrongPayload),
    }
}

/// The event that a record stands for: none for the kind "none", else the one
/// event of the record's kind, or the fault that keeps the record from being
/// read. A client message is never read: its fault says so.
pub open spec fn event_of(
    event_id: MpvEventId,
    error: i32,
    reply_userdata: u64,
    data: EventDataView,
) -> Result<Option<EventView>, DecodeError> {
    match event_id {
        MpvEventId::MPV_EVENT_NONE => Ok(None),
        MpvEventId::MPV_EVENT_SHUTDOWN => Ok(Some(EventView::Shutdown)),
        MpvEventId::MPV_EVENT_LOG_MESSAGE => log_message_of(data),
        MpvEventId::MPV_EVENT_GET_PROPERTY_REPLY => get_property_reply_of(
            error,
            reply_userdata,
            data,
        ),
        MpvEventId::MPV_EVENT_SET_PROPERTY_REPLY => match outcome_of(error as int, ()) {
            Err(e) => Err(e),
            Ok(result) => Ok(Some(EventView::SetPropertyReply(result, userdata_of(reply_userdata)))),
        },
        MpvEventId::MPV_EVENT_COMMAND_REPLY => match outcome_of(error as int, ()) {
            Err(e) => Err(e),
            Ok(result) => Ok(Some(EventView::CommandReply(result, userdata_of(reply_userdata)))),
        },
        MpvEventId::MPV_EVENT_START_FILE => Ok(Some(EventView::StartFile)),
        MpvEventId::MPV_EVENT_END_FILE => end_file_of(data),
        MpvEventId::MPV_EVENT_FILE_LOADED => Ok(Some(EventView::FileLoaded)),
        MpvEventId::MPV_EVENT_TRACKS_CHANGED => Ok(Some(EventView::TracksChanged)),
        MpvEventId::MPV_EVENT_TRACK_SWITCHED => Ok(Some(EventView::TrackSwitched)),
        MpvEventId::MPV_EVENT_IDLE => Ok(Some(EventView::Idle)),
        MpvEventId::MPV_EVENT_PAUSE => Ok(Some(EventView::Pause)),
        MpvEventId::MPV_EVENT_UNPAUSE => Ok(Some(EventView::Unpause)),
        MpvEventId::MPV_EVENT_TICK => Ok(Some(EventView::Tick)),
        MpvEventId::MPV_EVENT_SCRIPT_INPUT_DISPATCH => Ok(Some(EventView::Unused)),
        MpvEventId::MPV_EVENT_CLIENT_MESSAGE => Err(DecodeError::UnsupportedClientMessage),
        MpvEventId::MPV_EVENT_VIDEO_RECONFIG => Ok(Some(EventView::VideoReconfig)),
        MpvEventId::MPV_EVENT_AUDIO_RECONFIG => Ok(Some(EventView::AudioReconfig)),
        MpvEventId::MPV_EVENT_METADATA_UPDATE => Ok(Some(EventView::MetadataUpdate)),
        MpvEventId::MPV_EVENT_SEEK => Ok(Some(EventView::Seek)),
        MpvEventId::MPV_EVENT_PLAYBACK_RESTART => Ok(Some(EventView::PlaybackRestart)),
        MpvEventId::MPV_EVENT_PROPERTY_CHANGE => property_change_of(reply_userdata, data),
        MpvEventId::MPV_EVENT_CHAPTER_CHANGE => Ok(Some(EventView::ChapterChange)),
        MpvEventId::MPV_EVENT_QUEUE_OVERFLOW => Ok(Some(EventView::QueueOverflow)),
    }
}

/// What the outcome of decoding a record says, with the event taken by its
/// view.
pub open spec fn event_outcome(r: Result<Option<Event>, DecodeError>) -> Result<
    Option<EventView>,
    DecodeError,
> {
    match r {
        Ok(Some(event)) => Ok(Some(event@)),
        Ok(None) => Ok(None),
        Err(e) => Err(e),
    }
}

/// A record stands for no event exactly when its kind is "none", and an event
/// that it stands for is of the record's kind.
pub proof fn lemma_event_kind(
    event_id: MpvEventId,
    error: i32,
    reply_userdata: u64,
    data: EventDataView,
)
    ensures
        event_of(event_id, error, reply_userdata, data) == Ok::<Option<EventView>, DecodeError>(None)
            <==> event_id == MpvEventId::MPV_EVENT_NONE,
        event_of(event_id, error, reply_userdata, data) matches Ok(Some(event)) ==> event.kind()
            == event_id,
{
}

/// A record of a plain kind is read without fault, and neither its error
/// code nor its number nor its payload has a say in the event; only a client
/// message is refused.
pub proof fn lemma_plain_event(
    event_id: MpvEventId,
    error: i32,
    reply_userdata: u64,
    data: EventDataView,
    other_error: i32,
    other_reply_userdata: u64,
    other_data: EventDataView,
)
    requires
        is_plain(event_id),
    ensures
        event_of(event_id, error, reply_userdata, data) == event_of(
            event_id,
            other_error,
            other_reply_userdata,
            other_data,
        ),
        event_of(event_id, error, reply_userdata, data) is Err <==> event_id
            == MpvEventId::MPV_EVENT_CLIENT_MESSAGE,
        event_id == MpvEventId::MPV_EVENT_SHUTDOWN ==> event_of(
            event_id,
            error,
            reply_userdata,
            data,
        ) == Ok::<Option<EventView>, DecodeError>(Some(EventView::Shutdown)),
{
}

/// The end of a file for the reason "error" is a failure of the kind that the
/// record's error code names, and for every other reason a success that
/// carries the reason, whatever the error code.
pub proof fn lemma_end_file(
    error: i32,
    reply_userdata: u64,
    reason: MpvEndFileReason,
    file_error: i32,
)
    ensures
        reason != MpvEndFileReason::MPV_END_FILE_REASON_ERROR ==> event_of(
            MpvEventId::MPV_EVENT_END_FILE,
            error,
            reply_userdata,
            EventDataView::EndFile { reason: reason.code() as i32, error: file_error },
        ) == Ok::<Option<EventView>, DecodeError>(Some(EventView::EndFile(Ok(reason)))),
        reason == MpvEndFileReason::MPV_END_FILE_REASON_ERROR ==> event_of(
            MpvEventId::MPV_EVENT_END_FILE,
            error,
            reply_userdata,
            EventDataView::EndFile { reason: reason.code() as i32, error: file_error },
        ) == (match Error::from_code(file_error as int) {
            Some(kind) => Ok::<Option<EventView>, DecodeError>(Some(EventView::EndFile(Err(kind)))),
            None => Err(DecodeError::UnknownErrorCode),
        }),
{
    MpvEndFileReason::lemma_from_code(reason.code());
}

/// The low 32 bits of the number that a record carries.
pub fn userdata(reply_userdata: u64) -> (id: u32)
    ensures
        id == userdata_of(reply_userdata),
{
    let low = reply_userdata & 0xffff_ffff;
    assert(low == reply_userdata % 0x1_0000_0000) by (bit_vector)
        requires
            low == reply_userdata & 0xffff_ffff,
    ;
    low as u32
}

/// Reads the typed value behind a data pointer, by the number of its format
/// tag.
pub fn tagged_value<'a>(format: i32, data: NativeValue<'a>) -> (value: Result<
    Format<'a>,
    DecodeError,
>)
    ensures
        outcome_view(value) == tagged_value_of(format, data@),
{
    match MpvInternalFormat::from_i32(format) {
        Some(tag) => Format::get_from_c_void(tag, data),
        None => Ok(Format::Flag(false)),
    }
}

/// Decodes one record of the native library.
///
/// `Ok(None)` says that the record stands for no event, `Ok(Some(..))` gives
/// the one event of the record's kind, and `Err(..)` names the fault that
/// keeps the record from being read.
pub fn to_event<'a, 'b, 'c>(
    event_id: MpvEventId,
    error: i32,
    reply_userdata: u64,
    data: EventData<'a, 'b, 'c>,
) -> (event: Result<Option<Event<'a, 'b, 'c>>, DecodeError>)
    ensures
        event_outcome(event) == event_of(event_id, error, reply_userdata, data@),
{
    match event_id {
        MpvEventId::MPV_EVENT_NONE => Ok(None),
        MpvEventId::MPV_EVENT_SHUTDOWN => Ok(Some(Event::Shutdown)),
        MpvEventId::MPV_EVENT_LOG_MESSAGE => match data {
            EventData::LogMessage { prefix, level, text, log_level } => {
                let prefix = decode_text(prefix)?;
                let level = decode_text(level)?;
                let text = decode_text(text)?;
                match MpvLogLevel::from_i32(log_level) {
                    None => Err(DecodeError::UnknownLogLevel),
                    Some(log_level) => Ok(Some(Event::LogMessage { prefix, level, text, log_level })),
                }
            },
            EventData::Absent => Err(DecodeError::NullPointer),
            _ => Err(DecodeError::WrongPayload),
        },
        MpvEventId::MPV_EVENT_GET_PROPERTY_REPLY => match data {
            EventData::Property { name, format, data } => {
                let name = decode_text(name)?;
                let reply_userdata = userdata(reply_userdata);
                if error < 0 {
                    match Error::from_i32(error) {
                        None => Err(DecodeError::UnknownErrorCode),
                        Some(kind) => Ok(
                            Some(Event::GetPropertyReply { name, result: Err(kind), reply_userdata }),
                        ),
                    }
                } else {
                    let value = tagged_value(format, data)?;
                    Ok(Some(Event::GetPropertyReply { name, result: Ok(value), reply_userdata }))
                }
            },
            EventData::Absent => Err(DecodeError::NullPointer),
            _ => Err(DecodeError::WrongPayload),
        },
        MpvEventId::MPV_EVENT_SET_PROPERTY_REPLY => {
            let result = ret_to_result(error, ())?;
            Ok(Some(Event::SetPropertyReply(result, userdata(reply_userdata))))
        },
        MpvEventId::MPV_EVENT_COMMAND_REPLY => {
            let result = ret_to_result(error, ())?;
            Ok(Some(Event::CommandReply(result, userdata(reply_userdata))))
        },
        MpvEventId::MPV_EVENT_START_FILE => Ok(Some(Event::StartFile)),
        MpvEventId::MPV_EVENT_END_FILE => match data {
            EventData::EndFile { reason, error } => match MpvEndFileReason::from_i32(reason) {
                None => Err(DecodeError::UnknownEndFileReason),
                Some(MpvEndFileReason::MPV_END_FILE_REASON_ERROR) => match Error::from_i32(error) {
                    None => Err(DecodeError::UnknownErrorCode),
                    Some(kind) => Ok(Some(Event::EndFile(Err(kind)))),
                },
                Some(reason) => Ok(Some(Event::EndFile(Ok(reason)))),
            },
            EventData::Absent => Err(DecodeError::NullPointer),
            _ => Err(DecodeError::WrongPayload),
        },
        MpvEventId::MPV_EVENT_FILE_LOADED => Ok(Some(Event::FileLoaded)),
        MpvEventId::MPV_EVENT_TRACKS_CHANGED => Ok(Some(Event::TracksChanged)),
        MpvEventId::MPV_EVENT_TRACK_SWITCHED => Ok(Some(Event::TrackSwitched)),
        MpvEventId::MPV_EVENT_IDLE => Ok(Some(Event::Idle)),
        MpvEventId::MPV_EVENT_PAUSE => Ok(Some(Event::Pause)),
        MpvEventId::MPV_EVENT_UNPAUSE => Ok(Some(Event::Unpause)),
        MpvEventId::MPV_EVENT_TICK => Ok(Some(Event::Tick)),
        MpvEventId::MPV_EVENT_SCRIPT_INPUT_DISPATCH => Ok(Some(Event::Unused)),
        MpvEventId::MPV_EVENT_CLIENT_MESSAGE => Err(DecodeError::UnsupportedClientMessage),
        MpvEventId::MPV_EVENT_VIDEO_RECONFIG => Ok(Some(Event::VideoReconfig)),
        MpvEventId::MPV_EVENT_AUDIO_RECONFIG => Ok(Some(Event::AudioReconfig)),
        MpvEventId::MPV_EVENT_METADATA_UPDATE => Ok(Some(Event::MetadataUpdate)),
        MpvEventId::MPV_EVENT_SEEK => Ok(Some(Event::Seek)),
        MpvEventId::MPV_EVENT_PLAYBACK_RESTART => Ok(Some(Event::PlaybackRestart)),
        MpvEventId::MPV_EVENT_PROPERTY_CHANGE => match data {
            EventData::Property { name, format, data } => {
                let name = decode_text(name)?;
                let change = tagged_value(format, data)?;
                Ok(Some(Event::PropertyChange { name, change, reply_userdata: userdata(reply_userdata) }))
            },
            EventData::Absent => Err(DecodeError::NullPointer),
            _ => Err(DecodeError::WrongPayload),
        },
        MpvEventId::MPV_EVENT_CHAPTER_CHANGE => Ok(Some(Event::ChapterChange)),
        MpvEventId::MPV_EVENT_QUEUE_OVERFLOW => Ok(Some(Event::QueueOverflow)),
    }
}

} // verus!
