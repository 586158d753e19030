//! The numbering that the native library uses for event kinds, format tags,
//! log levels and end-of-file reasons.
//!
//! Each enumeration comes with its table of numbers, the way back from a
//! number, and the proof that the two agree.

use vstd::prelude::*;

verus! {

/// The kinds of event that the native library delivers.
#[allow(non_camel_case_types)]
#[derive(Clone, Copy, Debug, PartialEq, Eq, Hash, Structural)]
pub enum MpvEventId {
    /// Nothing happened: the wait ran out, or was woken up.
    MPV_EVENT_NONE,
    /// The player quits.
    MPV_EVENT_SHUTDOWN,
    /// A log message, with a payload of its own.
    MPV_EVENT_LOG_MESSAGE,
    /// The reply to an asynchronous read of a property.
    MPV_EVENT_GET_PROPERTY_REPLY,
    /// The reply to an asynchronous write of a property.
    MPV_EVENT_SET_PROPERTY_REPLY,
    /// The reply to an asynchronous command.
    MPV_EVENT_COMMAND_REPLY,
    /// Playback of a new file is about to start.
    MPV_EVENT_START_FILE,
    /// Playback of a file has ended, with a payload that says why.
    MPV_EVENT_END_FILE,
    /// The file is loaded and decoding starts.
    MPV_EVENT_FILE_LOADED,
    /// The list of tracks has changed.
    MPV_EVENT_TRACKS_CHANGED,
    /// Another track was selected.
    MPV_EVENT_TRACK_SWITCHED,
    /// The player has nothing to play and idles.
    MPV_EVENT_IDLE,
    /// Playback was paused.
    MPV_EVENT_PAUSE,
    /// Playback was resumed.
    MPV_EVENT_UNPAUSE,
    /// A video frame was shown, or some time has passed.
    MPV_EVENT_TICK,
    /// A kind that is kept for compatibility and never carries anything.
    MPV_EVENT_SCRIPT_INPUT_DISPATCH,
    /// A message that another client sent.
    MPV_EVENT_CLIENT_MESSAGE,
    /// The video output was reconfigured.
    MPV_EVENT_VIDEO_RECONFIG,
    /// The audio output was reconfigured.
    MPV_EVENT_AUDIO_RECONFIG,
    /// The metadata of the file has changed.
    MPV_EVENT_METADATA_UPDATE,
    /// A seek has started.
    MPV_EVENT_SEEK,
    /// Playback goes on after a seek or at the start of a file.
    MPV_EVENT_PLAYBACK_RESTART,
    /// An observed property has changed.
    MPV_EVENT_PROPERTY_CHANGE,
    /// The current chapter has changed.
    MPV_EVENT_CHAPTER_CHANGE,
    /// The event queue overflowed and events were lost.
    MPV_EVENT_QUEUE_OVERFLOW,
}

/// The tags that say which member of a native value is populated.
#[allow(non_camel_case_types)]
#[derive(Clone, Copy, Debug, PartialEq, Eq, Hash, Structural)]
pub enum MpvInternalFormat {
    /// No member at all.
    MPV_FORMAT_NONE,
    /// A text in its raw form.
    MPV_FORMAT_STRING,
    /// A text prepared for a human reader. It can only be read.
    MPV_FORMAT_OSD_STRING,
    /// A flag, held in a C `int` that is 0 or 1.
    MPV_FORMAT_FLAG,
    /// A signed integer of 64 bits.
    MPV_FORMAT_INT64,
    /// A floating-point number of 64 bits.
    MPV_FORMAT_DOUBLE,
    /// A node of structured data. Not decoded by this crate.
    MPV_FORMAT_NODE,
    /// A list of nodes. Not decoded by this crate.
    MPV_FORMAT_NODE_ARRAY,
    /// A map of nodes. Not decoded by this crate.
    MPV_FORMAT_NODE_MAP,
    /// A run of bytes. Not decoded by this crate.
    MPV_FORMAT_BYTE_ARRAY,
}

/// The levels of a log message, from silent to most noisy.
#[allow(non_camel_case_types)]
#[derive(Clone, Copy, Debug, PartialEq, Eq, Hash, Structural)]
pub enum MpvLogLevel {
    /// No messages at all.
    MPV_LOG_LEVEL_NONE,
    /// Errors after which the player cannot go on.
    MPV_LOG_LEVEL_FATAL,
    /// Errors.
    MPV_LOG_LEVEL_ERROR,
    /// Warnings.
    MPV_LOG_LEVEL_WARN,
    /// Informative messages.
    MPV_LOG_LEVEL_INFO,
    /// Verbose messages.
    MPV_LOG_LEVEL_V,
    /// Messages for debugging.
    MPV_LOG_LEVEL_DEBUG,
    /// Very noisy messages for debugging.
    MPV_LOG_LEVEL_TRACE,
}

/// Why playback of a file has ended.
#[allow(non_camel_case_types)]
#[derive(Clone, Copy, Debug, PartialEq, Eq, Hash, Structural)]
pub enum MpvEndFileReason {
    /// The end of the file was reached.
    MPV_END_FILE_REASON_EOF,
    /// Playback was stopped from outside.
    MPV_END_FILE_REASON_STOP,
    /// The player quits.
    MPV_END_FILE_REASON_QUIT,
    /// An error ended playback.
    MPV_END_FILE_REASON_ERROR,
    /// The file was a playlist or the like, and playback goes on with what it names.
    MPV_END_FILE_REASON_REDIRECT,
}

impl MpvEventId {
    /// The number by which the native library writes this event kind.
    pub open spec fn code(self) -> int {
        match self {
            MpvEventId::MPV_EVENT_NONE => 0,
            MpvEventId::MPV_EVENT_SHUTDOWN => 1,
            MpvEventId::MPV_EVENT_LOG_MESSAGE => 2,
            MpvEventId::MPV_EVENT_GET_PROPERTY_REPLY => 3,
            MpvEventId::MPV_EVENT_SET_PROPERTY_REPLY => 4,
            MpvEventId::MPV_EVENT_COMMAND_REPLY => 5,
            MpvEventId::MPV_EVENT_START_FILE => 6,
            MpvEventId::MPV_EVENT_END_FILE => 7,
            MpvEventId::MPV_EVENT_FILE_LOADED => 8,
            MpvEventId::MPV_EVENT_TRACKS_CHANGED => 9,
            MpvEventId::MPV_EVENT_TRACK_SWITCHED => 10,
            MpvEventId::MPV_EVENT_IDLE => 11,
            MpvEventId::MPV_EVENT_PAUSE => 12,
            MpvEventId::MPV_EVENT_UNPAUSE => 13,
            MpvEventId::MPV_EVENT_TICK => 14,
            MpvEventId::MPV_EVENT_SCRIPT_INPUT_DISPATCH => 15,
            MpvEventId::MPV_EVENT_CLIENT_MESSAGE => 16,
            MpvEventId::MPV_EVENT_VIDEO_RECONFIG => 17,
            MpvEventId::MPV_EVENT_AUDIO_RECONFIG => 18,
            MpvEventId::MPV_EVENT_METADATA_UPDATE => 19,
            MpvEventId::MPV_EVENT_SEEK => 20,
            MpvEventId::MPV_EVENT_PLAYBACK_RESTART => 21,
            MpvEventId::MPV_EVENT_PROPERTY_CHANGE => 22,
            MpvEventId::MPV_EVENT_CHAPTER_CHANGE => 23,
            MpvEventId::MPV_EVENT_QUEUE_OVERFLOW => 24,
        }
    }

    /// Whether the native library documents `code` as a event kind.
    pub open spec fn is_code(code: int) -> bool {
        0 <= code <= 24
    }

    /// The event kind that `code` stands for, if it stands for one.
    pub open spec fn from_code(code: int) -> Option<MpvEventId> {
        if exists|k: MpvEventId| k.code() == code {
            Some(choose|k: MpvEventId| k.code() == code)
        } else {
            None
        }
    }

    /// Every event kind is found again from its number, a number names at most
    /// one event kind, and exactly the documented numbers name one.
    pub proof fn lemma_from_code(code: int)
        ensures
            MpvEventId::from_code(code) is Some <==> MpvEventId::is_code(code),
            forall|k: MpvEventId| MpvEventId::from_code(code) == Some(k) <==> k.code() == code,
    {
        assert forall|k: MpvEventId| k.code() == code implies MpvEventId::from_code(code) == Some(k) by {
            let found = choose|x: MpvEventId| x.code() == code;
            assert(found.code() == code);
        }
        if MpvEventId::is_code(code) {
            assert(MpvEventId::kind_at(code).code() == code);
        }
    }

    /// The event kind with the given documented number.
    spec fn kind_at(code: int) -> MpvEventId {
        if code == 0 {
            MpvEventId::MPV_EVENT_NONE
        } else if code == 1 {
            MpvEventId::MPV_EVENT_SHUTDOWN
        } else if code == 2 {
            MpvEventId::MPV_EVENT_LOG_MESSAGE
        } else if code == 3 {
            MpvEventId::MPV_EVENT_GET_PROPERTY_REPLY
        } else if code == 4 {
            MpvEventId::MPV_EVENT_SET_PROPERTY_REPLY
        } else if code == 5 {
            MpvEventId::MPV_EVENT_COMMAND_REPLY
        } else if code == 6 {
            MpvEventId::MPV_EVENT_START_FILE
        } else if code == 7 {
            MpvEventId::MPV_EVENT_END_FILE
        } else if code == 8 {
            MpvEventId::MPV_EVENT_FILE_LOADED
        } else if code == 9 {
            MpvEventId::MPV_EVENT_TRACKS_CHANGED
        } else if code == 10 {
            MpvEventId::MPV_EVENT_TRACK_SWITCHED
        } else if code == 11 {
            MpvEventId::MPV_EVENT_IDLE
        } else if code == 12 {
            MpvEventId::MPV_EVENT_PAUSE
        } else if code == 13 {
            MpvEventId::MPV_EVENT_UNPAUSE
        } else if code == 14 {
            MpvEventId::MPV_EVENT_TICK
        } else if code == 15 {
            MpvEventId::MPV_EVENT_SCRIPT_INPUT_DISPATCH
        } else if code == 16 {
            MpvEventId::MPV_EVENT_CLIENT_MESSAGE
        } else if code == 17 {
            MpvEventId::MPV_EVENT_VIDEO_RECONFIG
        } else if code == 18 {
            MpvEventId::MPV_EVENT_AUDIO_RECONFIG
        } else if code == 19 {
            MpvEventId::MPV_EVENT_METADATA_UPDATE
        } else if code == 20 {
            MpvEventId::MPV_EVENT_SEEK
        } else if code == 21 {
            MpvEventId::MPV_EVENT_PLAYBACK_RESTART
        } else if code == 22 {
            MpvEventId::MPV_EVENT_PROPERTY_CHANGE
        } else if code == 23 {
            MpvEventId::MPV_EVENT_CHAPTER_CHANGE
        } else {
            MpvEventId::MPV_EVENT_QUEUE_OVERFLOW
        }
    }

    /// The number of this event kind.
    pub fn to_i32(self) -> (code: i32)
        ensures
            code == self.code(),
    {
        match self {
            MpvEventId::MPV_EVENT_NONE => 0,
            MpvEventId::MPV_EVENT_SHUTDOWN => 1,
            MpvEventId::MPV_EVENT_LOG_MESSAGE => 2,
            MpvEventId::MPV_EVENT_GET_PROPERTY_REPLY => 3,
            MpvEventId::MPV_EVENT_SET_PROPERTY_REPLY => 4,
            MpvEventId::MPV_EVENT_COMMAND_REPLY => 5,
            MpvEventId::MPV_EVENT_START_FILE => 6,
            MpvEventId::MPV_EVENT_END_FILE => 7,
            MpvEventId::MPV_EVENT_FILE_LOADED => 8,
            MpvEventId::MPV_EVENT_TRACKS_CHANGED => 9,
            MpvEventId::MPV_EVENT_TRACK_SWITCHED => 10,
            MpvEventId::MPV_EVENT_IDLE => 11,
            MpvEventId::MPV_EVENT_PAUSE => 12,
            MpvEventId::MPV_EVENT_UNPAUSE => 13,
            MpvEventId::MPV_EVENT_TICK => 14,
            MpvEventId::MPV_EVENT_SCRIPT_INPUT_DISPATCH => 15,
            MpvEventId::MPV_EVENT_CLIENT_MESSAGE => 16,
            MpvEventId::MPV_EVENT_VIDEO_RECONFIG => 17,
            MpvEventId::MPV_EVENT_AUDIO_RECONFIG => 18,
            MpvEventId::MPV_EVENT_METADATA_UPDATE => 19,
            MpvEventId::MPV_EVENT_SEEK => 20,
            MpvEventId::MPV_EVENT_PLAYBACK_RESTART => 21,
            MpvEventId::MPV_EVENT_PROPERTY_CHANGE => 22,
            MpvEventId::MPV_EVENT_CHAPTER_CHANGE => 23,
            MpvEventId::MPV_EVENT_QUEUE_OVERFLOW => 24,
        }
    }

    /// The event kind that `code` stands for; `None` for a number that the native
    /// library does not document.
    pub fn from_i32(code: i32) -> (kind: Option<MpvEventId>)
        ensures
            kind == MpvEventId::from_code(code as int),
            kind is Some <==> MpvEventId::is_code(code as int),
            kind matches Some(k) ==> k.code() == code,
    {
        proof {
            MpvEventId::lemma_from_code(code as int);
        }
        if code == 0 {
            Some(MpvEventId::MPV_EVENT_NONE)
        } else if code == 1 {
            Some(MpvEventId::MPV_EVENT_SHUTDOWN)
        } else if code == 2 {
            Some(MpvEventId::MPV_EVENT_LOG_MESSAGE)
        } else if code == 3 {
            Some(MpvEventId::MPV_EVENT_GET_PROPERTY_REPLY)
        } else if code == 4 {
            Some(MpvEventId::MPV_EVENT_SET_PROPERTY_REPLY)
        } else if code == 5 {
            Some(MpvEventId::MPV_EVENT_COMMAND_REPLY)
        } else if code == 6 {
            Some(MpvEventId::MPV_EVENT_START_FILE)
        } else if code == 7 {
            Some(MpvEventId::MPV_EVENT_END_FILE)
        } else if code == 8 {
            Some(MpvEventId::MPV_EVENT_FILE_LOADED)
        } else if code == 9 {
            Some(MpvEventId::MPV_EVENT_TRACKS_CHANGED)
        } else if code == 10 {
            Some(MpvEventId::MPV_EVENT_TRACK_SWITCHED)
        } else if code == 11 {
            Some(MpvEventId::MPV_EVENT_IDLE)
        } else if code == 12 {
            Some(MpvEventId::MPV_EVENT_PAUSE)
        } else if code == 13 {
            Some(MpvEventId::MPV_EVENT_UNPAUSE)
        } else if code == 14 {
            Some(MpvEventId::MPV_EVENT_TICK)
        } else if code == 15 {
            Some(MpvEventId::MPV_EVENT_SCRIPT_INPUT_DISPATCH)
        } else if code == 16 {
            Some(MpvEventId::MPV_EVENT_CLIENT_MESSAGE)
        } else if code == 17 {
            Some(MpvEventId::MPV_EVENT_VIDEO_RECONFIG)
        } else if code == 18 {
            Some(MpvEventId::MPV_EVENT_AUDIO_RECONFIG)
        } else if code == 19 {
            Some(MpvEventId::MPV_EVENT_METADATA_UPDATE)
        } else if code == 20 {
            Some(MpvEventId::MPV_EVENT_SEEK)
        } else if code == 21 {
            Some(MpvEventId::MPV_EVENT_PLAYBACK_RESTART)
        } else if code == 22 {
            Some(MpvEventId::MPV_EVENT_PROPERTY_CHANGE)
        } else if code == 23 {
            Some(MpvEventId::MPV_EVENT_CHAPTER_CHANGE)
        } else if code == 24 {
            Some(MpvEventId::MPV_EVENT_QUEUE_OVERFLOW)
        } else {
            None
        }
    }
}

impl MpvInternalFormat {
    /// The number by which the native library writes this format tag.
    pub open spec fn code(self) -> int {
        match self {
            MpvInternalFormat::MPV_FORMAT_NONE => 0,
            MpvInternalFormat::MPV_FORMAT_STRING => 1,
            MpvInternalFormat::MPV_FORMAT_OSD_STRING => 2,
            MpvInternalFormat::MPV_FORMAT_FLAG => 3,
            MpvInternalFormat::MPV_FORMAT_INT64 => 4,
            MpvInternalFormat::MPV_FORMAT_DOUBLE => 5,
            MpvInternalFormat::MPV_FORMAT_NODE => 6,
            MpvInternalFormat::MPV_FORMAT_NODE_ARRAY => 7,
            MpvInternalFormat::MPV_FORMAT_NODE_MAP => 8,
            MpvInternalFormat::MPV_FORMAT_BYTE_ARRAY => 9,
        }
    }

    /// Whether the native library documents `code` as a format tag.
    pub open spec fn is_code(code: int) -> bool {
        0 <= code <= 9
    }

    /// The format tag that `code` stands for, if it stands for one.
    pub open spec fn from_code(code: int) -> Option<MpvInternalFormat> {
        if exists|k: MpvInternalFormat| k.code() == code {
            Some(choose|k: MpvInternalFormat| k.code() == code)
        } else {
            None
        }
    }

    /// Every format tag is found again from its number, a number names at most
    /// one format tag, and exactly the documented numbers name one.
    pub proof fn lemma_from_code(code: int)
        ensures
            MpvInternalFormat::from_code(code) is Some <==> MpvInternalFormat::is_code(code),
            forall|k: MpvInternalFormat| MpvInternalFormat::from_code(code) == Some(k) <==> k.code() == code,
    {
        assert forall|k: MpvInternalFormat| k.code() == code implies MpvInternalFormat::from_code(code) == Some(k) by {
            let found = choose|x: MpvInternalFormat| x.code() == code;
            assert(found.code() == code);
        }
        if MpvInternalFormat::is_code(code) {
            assert(MpvInternalFormat::kind_at(code).code() == code);
        }
    }

    /// The format tag with the given documented number.
    spec fn kind_at(code: int) -> MpvInternalFormat {
        if code == 0 {
            MpvInternalFormat::MPV_FORMAT_NONE
        } else if code == 1 {
            MpvInternalFormat::MPV_FORMAT_STRING
        } else if code == 2 {
            MpvInternalFormat::MPV_FORMAT_OSD_STRING
        } else if code == 3 {
            MpvInternalFormat::MPV_FORMAT_FLAG
        } else if code == 4 {
            MpvInternalFormat::MPV_FORMAT_INT64
        } else if code == 5 {
            MpvInternalFormat::MPV_FORMAT_DOUBLE
        } else if code == 6 {
            MpvInternalFormat::MPV_FORMAT_NODE
        } else if code == 7 {
            MpvInternalFormat::MPV_FORMAT_NODE_ARRAY
        } else if code == 8 {
            MpvInternalFormat::MPV_FORMAT_NODE_MAP
        } else {
            MpvInternalFormat::MPV_FORMAT_BYTE_ARRAY
        }
    }

    /// The number of this format tag.
    pub fn to_i32(self) -> (code: i32)
        ensures
            code == self.code(),
    {
        match self {
            MpvInternalFormat::MPV_FORMAT_NONE => 0,
            MpvInternalFormat::MPV_FORMAT_STRING => 1,
            MpvInternalFormat::MPV_FORMAT_OSD_STRING => 2,
            MpvInternalFormat::MPV_FORMAT_FLAG => 3,
            MpvInternalFormat::MPV_FORMAT_INT64 => 4,
            MpvInternalFormat::MPV_FORMAT_DOUBLE => 5,
            MpvInternalFormat::MPV_FORMAT_NODE => 6,
            MpvInternalFormat::MPV_FORMAT_NODE_ARRAY => 7,
            MpvInternalFormat::MPV_FORMAT_NODE_MAP => 8,
            MpvInternalFormat::MPV_FORMAT_BYTE_ARRAY => 9,
        }
    }

    /// The format tag that `code` stands for; `None` for a number that the native
    /// library does not document.
    pub fn from_i32(code: i32) -> (kind: Option<MpvInternalFormat>)
        ensures
            kind == MpvInternalFormat::from_code(code as int),
            kind is Some <==> MpvInternalFormat::is_code(code as int),
            kind matches Some(k) ==> k.code() == code,
    {
        proof {
            MpvInternalFormat::lemma_from_code(code as int);
        }
        if code == 0 {
            Some(MpvInternalFormat::MPV_FORMAT_NONE)
        } else if code == 1 {
            Some(MpvInternalFormat::MPV_FORMAT_STRING)
        } else if code == 2 {
            Some(MpvInternalFormat::MPV_FORMAT_OSD_STRING)
        } else if code == 3 {
            Some(MpvInternalFormat::MPV_FORMAT_FLAG)
        } else if code == 4 {
            Some(MpvInternalFormat::MPV_FORMAT_INT64)
        } else if code == 5 {
            Some(MpvInternalFormat::MPV_FORMAT_DOUBLE)
        } else if code == 6 {
            Some(MpvInternalFormat::MPV_FORMAT_NODE)
        } else if code == 7 {
            Some(MpvInternalFormat::MPV_FORMAT_NODE_ARRAY)
        } else if code == 8 {
            Some(MpvInternalFormat::MPV_FORMAT_NODE_MAP)
        } else if code == 9 {
            Some(MpvInternalFormat::MPV_FORMAT_BYTE_ARRAY)
        } else {
            None
        }
    }
}

impl MpvLogLevel {
    /// The number by which the native library writes this log level.
    pub open spec fn code(self) -> int {
        match self {
            MpvLogLevel::MPV_LOG_LEVEL_NONE => 0,
            MpvLogLevel::MPV_LOG_LEVEL_FATAL => 10,
            MpvLogLevel::MPV_LOG_LEVEL_ERROR => 20,
            MpvLogLevel::MPV_LOG_LEVEL_WARN => 30,
            MpvLogLevel::MPV_LOG_LEVEL_INFO => 40,
            MpvLogLevel::MPV_LOG_LEVEL_V => 50,
            MpvLogLevel::MPV_LOG_LEVEL_DEBUG => 60,
            MpvLogLevel::MPV_LOG_LEVEL_TRACE => 70,
        }
    }

    /// Whether the native library documents `code` as a log level.
    pub open spec fn is_code(code: int) -> bool {
        0 <= code <= 70 && code % 10 == 0
    }

    /// The log level that `code` stands for, if it stands for one.
    pub open spec fn from_code(code: int) -> Option<MpvLogLevel> {
        if exists|k: MpvLogLevel| k.code() == code {
            Some(choose|k: MpvLogLevel| k.code() == code)
        } else {
            None
        }
    }

    /// Every log level is found again from its number, a number names at most
    /// one log level, and exactly the documented numbers name one.
    pub proof fn lemma_from_code(code: int)
        ensures
            MpvLogLevel::from_code(code) is Some <==> MpvLogLevel::is_code(code),
            forall|k: MpvLogLevel| MpvLogLevel::from_code(code) == Some(k) <==> k.code() == code,
    {
        assert forall|k: MpvLogLevel| k.code() == code implies MpvLogLevel::from_code(code) == Some(k) by {
            let found = choose|x: MpvLogLevel| x.code() == code;
            assert(found.code() == code);
        }
        if MpvLogLevel::is_code(code) {
            assert(MpvLogLevel::kind_at(code).code() == code);
        }
    }

    /// The log level with the given documented number.
    spec fn kind_at(code: int) -> MpvLogLevel {
        if code == 0 {
            MpvLogLevel::MPV_LOG_LEVEL_NONE
        } else if code == 10 {
            MpvLogLevel::MPV_LOG_LEVEL_FATAL
        } else if code == 20 {
            MpvLogLevel::MPV_LOG_LEVEL_ERROR
        } else if code == 30 {
            MpvLogLevel::MPV_LOG_LEVEL_WARN
        } else if code == 40 {
            MpvLogLevel::MPV_LOG_LEVEL_INFO
        } else if code == 50 {
            MpvLogLevel::MPV_LOG_LEVEL_V
        } else if code == 60 {
            MpvLogLevel::MPV_LOG_LEVEL_DEBUG
        } else {
            MpvLogLevel::MPV_LOG_LEVEL_TRACE
        }
    }

    /// The number of this log level.
    pub fn to_i32(self) -> (code: i32)
        ensures
            code == self.code(),
    {
        match self {
            MpvLogLevel::MPV_LOG_LEVEL_NONE => 0,
            MpvLogLevel::MPV_LOG_LEVEL_FATAL => 10,
            MpvLogLevel::MPV_LOG_LEVEL_ERROR => 20,
            MpvLogLevel::MPV_LOG_LEVEL_WARN => 30,
            MpvLogLevel::MPV_LOG_LEVEL_INFO => 40,
            MpvLogLevel::MPV_LOG_LEVEL_V => 50,
            MpvLogLevel::MPV_LOG_LEVEL_DEBUG => 60,
            MpvLogLevel::MPV_LOG_LEVEL_TRACE => 70,
        }
    }

    /// The log level that `code` stands for; `None` for a number that the native
    /// library does not document.
    pub fn from_i32(code: i32) -> (kind: Option<MpvLogLevel>)
        ensures
            kind == MpvLogLevel::from_code(code as int),
            kind is Some <==> MpvLogLevel::is_code(code as int),
            kind matches Some(k) ==> k.code() == code,
    {
        proof {
            MpvLogLevel::lemma_from_code(code as int);
        }
        if code == 0 {
            Some(MpvLogLevel::MPV_LOG_LEVEL_NONE)
        } else if code == 10 {
            Some(MpvLogLevel::MPV_LOG_LEVEL_FATAL)
        } else if code == 20 {
            Some(MpvLogLevel::MPV_LOG_LEVEL_ERROR)
        } else if code == 30 {
            Some(MpvLogLevel::MPV_LOG_LEVEL_WARN)
        } else if code == 40 {
            Some(MpvLogLevel::MPV_LOG_LEVEL_INFO)
        } else if code == 50 {
            Some(MpvLogLevel::MPV_LOG_LEVEL_V)
        } else if code == 60 {
            Some(MpvLogLevel::MPV_LOG_LEVEL_DEBUG)
        } else if code == 70 {
            Some(MpvLogLevel::MPV_LOG_LEVEL_TRACE)
        } else {
            None
        }
    }
}

impl MpvEndFileReason {
    /// The number by which the native library writes this end-of-file reason.
    pub open spec fn code(self) -> int {
        match self {
            MpvEndFileReason::MPV_END_FILE_REASON_EOF => 0,
            MpvEndFileReason::MPV_END_FILE_REASON_STOP => 2,
            MpvEndFileReason::MPV_END_FILE_REASON_QUIT => 3,
            MpvEndFileReason::MPV_END_FILE_REASON_ERROR => 4,
            MpvEndFileReason::MPV_END_FILE_REASON_REDIRECT => 5,
        }
    }

    /// Whether the native library documents `code` as a end-of-file reason.
    pub open spec fn is_code(code: int) -> bool {
        code == 0 || 2 <= code <= 5
    }

    /// The end-of-file reason that `code` stands for, if it stands for one.
    pub open spec fn from_code(code: int) -> Option<MpvEndFileReason> {
        if exists|k: MpvEndFileReason| k.code() == code {
            Some(choose|k: MpvEndFileReason| k.code() == code)
        } else {
            None
        }
    }

    /// Every end-of-file reason is found again from its number, a number names at most
    /// one end-of-file reason, and exactly the documented numbers name one.
    pub proof fn lemma_from_code(code: int)
        ensures
            MpvEndFileReason::from_code(code) is Some <==> MpvEndFileReason::is_code(code),
            forall|k: MpvEndFileReason| MpvEndFileReason::from_code(code) == Some(k) <==> k.code() == code,
    {
        assert forall|k: MpvEndFileReason| k.code() == code implies MpvEndFileReason::from_code(code) == Some(k) by {
            let found = choose|x: MpvEndFileReason| x.code() == code;
            assert(found.code() == code);
        }
        if MpvEndFileReason::is_code(code) {
            assert(MpvEndFileReason::kind_at(code).code() == code);
        }
    }

    /// The end-of-file reason with the given documented number.
    spec fn kind_at(code: int) -> MpvEndFileReason {
        if code == 0 {
            MpvEndFileReason::MPV_END_FILE_REASON_EOF
        } else if code == 2 {
            MpvEndFileReason::MPV_END_FILE_REASON_STOP
        } else if code == 3 {
            MpvEndFileReason::MPV_END_FILE_REASON_QUIT
        } else if code == 4 {
            MpvEndFileReason::MPV_END_FILE_REASON_ERROR
        } else {
            MpvEndFileReason::MPV_END_FILE_REASON_REDIRECT
        }
    }

    /// The number of this end-of-file reason.
    pub fn to_i32(self) -> (code: i32)
        ensures
            code == self.code(),
    {
        match self {
            MpvEndFileReason::MPV_END_FILE_REASON_EOF => 0,
            MpvEndFileReason::MPV_END_FILE_REASON_STOP => 2,
            MpvEndFileReason::MPV_END_FILE_REASON_QUIT => 3,
            MpvEndFileReason::MPV_END_FILE_REASON_ERROR => 4,
            MpvEndFileReason::MPV_END_FILE_REASON_REDIRECT => 5,
        }
    }

    /// The end-of-file reason that `code` stands for; `None` for a number that the
    /// native library does not document.
    pub fn from_i32(code: i32) -> (kind: Option<MpvEndFileReason>)
        ensures
            kind == MpvEndFileReason::from_code(code as int),
            kind is Some <==> MpvEndFileReason::is_code(code as int),
            kind matches Some(k) ==> k.code() == code,
    {
        proof {
            MpvEndFileReason::lemma_from_code(code as int);
        }
        if code == 0 {
            Some(MpvEndFileReason::MPV_END_FILE_REASON_EOF)
        } else if code == 2 {
            Some(MpvEndFileReason::MPV_END_FILE_REASON_STOP)
        } else if code == 3 {
            Some(MpvEndFileReason::MPV_END_FILE_REASON_QUIT)
        } else if code == 4 {
            Some(MpvEndFileReason::MPV_END_FILE_REASON_ERROR)
        } else if code == 5 {
            Some(MpvEndFileReason::MPV_END_FILE_REASON_REDIRECT)
        } else {
            None
        }
    }
}

} // verus!
