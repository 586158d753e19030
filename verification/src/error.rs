//! Error kinds of the native library, and the faults of decoding.

use vstd::prelude::*;

verus! {

/// The error kinds that the native library reports, one per documented code.
#[allow(non_camel_case_types)]
#[derive(Clone, Copy, Debug, PartialEq, Eq, Hash, Structural)]
pub enum Error {
    /// No error happened.
    MPV_ERROR_SUCCESS,
    /// The event queue of the client is full.
    MPV_ERROR_EVENT_QUEUE_FULL,
    /// Memory allocation failed.
    MPV_ERROR_NOMEM,
    /// The player core is not initialized yet.
    MPV_ERROR_UNINITIALIZED,
    /// A parameter holds an invalid or unsupported value.
    MPV_ERROR_INVALID_PARAMETER,
    /// The option to set does not exist.
    MPV_ERROR_OPTION_NOT_FOUND,
    /// The option was given in an unsupported format.
    MPV_ERROR_OPTION_FORMAT,
    /// The option value could not be parsed or applied.
    MPV_ERROR_OPTION_ERROR,
    /// The property does not exist.
    MPV_ERROR_PROPERTY_NOT_FOUND,
    /// The property was accessed in an unsupported format.
    MPV_ERROR_PROPERTY_FORMAT,
    /// The property exists but is not available right now.
    MPV_ERROR_PROPERTY_UNAVAILABLE,
    /// Getting or setting the property failed.
    MPV_ERROR_PROPERTY_ERROR,
    /// Running the command failed.
    MPV_ERROR_COMMAND,
    /// Loading failed.
    MPV_ERROR_LOADING_FAILED,
    /// The audio output could not be initialized.
    MPV_ERROR_AO_INIT_FAILED,
    /// The video output could not be initialized.
    MPV_ERROR_VO_INIT_FAILED,
    /// There was nothing to play.
    MPV_ERROR_NOTHING_TO_PLAY,
    /// The file format could not be determined.
    MPV_ERROR_UNKNOWN_FORMAT,
    /// The system does not support what was asked for.
    MPV_ERROR_UNSUPPORTED,
    /// The called function is a stub only.
    MPV_ERROR_NOT_IMPLEMENTED,
    /// An error without further description.
    MPV_ERROR_GENERIC,
}

/// Why a native record could not be turned into a typed value.
#[derive(Clone, Copy, Debug, PartialEq, Eq, Hash, Structural)]
pub enum DecodeError {
    /// A pointer that has to lead somewhere is null.
    NullPointer,
    /// A text buffer holds no terminating zero byte.
    Unterminated,
    /// A text buffer does not hold UTF-8.
    InvalidUtf8,
    /// A flag is neither 0 nor 1.
    InvalidFlag,
    /// The populated member is not the one that the format tag announces.
    WrongMember,
    /// The payload is not the record that the event kind announces.
    WrongPayload,
    /// An error code that the native library does not document.
    UnknownErrorCode,
    /// An end-of-file reason that the native library does not document.
    UnknownEndFileReason,
    /// A log level that the native library does not document.
    UnknownLogLevel,
    /// A client message: its payload is not decoded.
    UnsupportedClientMessage,
}

impl Error {
    /// The code by which the native library reports this kind.
    pub open spec fn code(self) -> int {
        match self {
            Error::MPV_ERROR_SUCCESS => 0,
            Error::MPV_ERROR_EVENT_QUEUE_FULL => -1,
            Error::MPV_ERROR_NOMEM => -2,
            Error::MPV_ERROR_UNINITIALIZED => -3,
            Error::MPV_ERROR_INVALID_PARAMETER => -4,
            Error::MPV_ERROR_OPTION_NOT_FOUND => -5,
            Error::MPV_ERROR_OPTION_FORMAT => -6,
            Error::MPV_ERROR_OPTION_ERROR => -7,
            Error::MPV_ERROR_PROPERTY_NOT_FOUND => -8,
            Error::MPV_ERROR_PROPERTY_FORMAT => -9,
            Error::MPV_ERROR_PROPERTY_UNAVAILABLE => -10,
            Error::MPV_ERROR_PROPERTY_ERROR => -11,
            Error::MPV_ERROR_COMMAND => -12,
            Error::MPV_ERROR_LOADING_FAILED => -13,
            Error::MPV_ERROR_AO_INIT_FAILED => -14,
            Error::MPV_ERROR_VO_INIT_FAILED => -15,
            Error::MPV_ERROR_NOTHING_TO_PLAY => -16,
            Error::MPV_ERROR_UNKNOWN_FORMAT => -17,
            Error::MPV_ERROR_UNSUPPORTED => -18,
            Error::MPV_ERROR_NOT_IMPLEMENTED => -19,
            Error::MPV_ERROR_GENERIC => -20,
        }
    }

    /// Whether the native library documents `code` as an error code.
    pub open spec fn is_code(code: int) -> bool {
        -20 <= code <= 0
    }

    /// The kind that `code` stands for, if it stands for one.
    pub open spec fn from_code(code: int) -> Option<Error> {
        if exists|e: Error| e.code() == code {
            Some(choose|e: Error| e.code() == code)
        } else {
            None
        }
    }

    /// Every kind is found again from its code, a code names at most one kind,
    /// and exactly the documented codes name one.
    pub proof fn lemma_from_code(code: int)
        ensures
            Error::from_code(code) is Some <==> Error::is_code(code),
            forall|e: Error| Error::from_code(code) == Some(e) <==> e.code() == code,
    {
        assert forall|e: Error| e.code() == code implies Error::from_code(code) == Some(e) by {
            let found = choose|x: Error| x.code() == code;
            assert(found.code() == code);
        }
        if Error::is_code(code) {
            let e = Error::kind_at(code);
            assert(e.code() == code);
        }
    }

    /// The kind with the given documented code.
    spec fn kind_at(code: int) -> Error {
        if code == 0 {
            Error::MPV_ERROR_SUCCESS
        } else if code == -1 {
            Error::MPV_ERROR_EVENT_QUEUE_FULL
        } else if code == -2 {
            Error::MPV_ERROR_NOMEM
        } else if code == -3 {
            Error::MPV_ERROR_UNINITIALIZED
        } else if code == -4 {
            Error::MPV_ERROR_INVALID_PARAMETER
        } else if code == -5 {
            Error::MPV_ERROR_OPTION_NOT_FOUND
        } else if code == -6 {
            Error::MPV_ERROR_OPTION_FORMAT
        } else if code == -7 {
            Error::MPV_ERROR_OPTION_ERROR
        } else if code == -8 {
            Error::MPV_ERROR_PROPERTY_NOT_FOUND
        } else if code == -9 {
            Error::MPV_ERROR_PROPERTY_FORMAT
        } else if code == -10 {
            Error::MPV_ERROR_PROPERTY_UNAVAILABLE
        } else if code == -11 {
            Error::MPV_ERROR_PROPERTY_ERROR
        } else if code == -12 {
            Error::MPV_ERROR_COMMAND
        } else if code == -13 {
            Error::MPV_ERROR_LOADING_FAILED
        } else if code == -14 {
            Error::MPV_ERROR_AO_INIT_FAILED
        } else if code == -15 {
            Error::MPV_ERROR_VO_INIT_FAILED
        } else if code == -16 {
            Error::MPV_ERROR_NOTHING_TO_PLAY
        } else if code == -17 {
            Error::MPV_ERROR_UNKNOWN_FORMAT
        } else if code == -18 {
            Error::MPV_ERROR_UNSUPPORTED
        } else if code == -19 {
            Error::MPV_ERROR_NOT_IMPLEMENTED
        } else {
            Error::MPV_ERROR_GENERIC
        }
    }

    /// The code of this kind.
    pub fn to_i32(self) -> (code: i32)
        ensures
            code == self.code(),
    {
        match self {
            Error::MPV_ERROR_SUCCESS => 0,
            Error::MPV_ERROR_EVENT_QUEUE_FULL => -1,
            Error::MPV_ERROR_NOMEM => -2,
            Error::MPV_ERROR_UNINITIALIZED => -3,
            Error::MPV_ERROR_INVALID_PARAMETER => -4,
            Error::MPV_ERROR_OPTION_NOT_FOUND => -5,
            Error::MPV_ERROR_OPTION_FORMAT => -6,
            Error::MPV_ERROR_OPTION_ERROR => -7,
            Error::MPV_ERROR_PROPERTY_NOT_FOUND => -8,
            Error::MPV_ERROR_PROPERTY_FORMAT => -9,
            Error::MPV_ERROR_PROPERTY_UNAVAILABLE => -10,
            Error::MPV_ERROR_PROPERTY_ERROR => -11,
            Error::MPV_ERROR_COMMAND => -12,
            Error::MPV_ERROR_LOADING_FAILED => -13,
            Error::MPV_ERROR_AO_INIT_FAILED => -14,
            Error::MPV_ERROR_VO_INIT_FAILED => -15,
            Error::MPV_ERROR_NOTHING_TO_PLAY => -16,
            Error::MPV_ERROR_UNKNOWN_FORMAT => -17,
            Error::MPV_ERROR_UNSUPPORTED => -18,
            Error::MPV_ERROR_NOT_IMPLEMENTED => -19,
            Error::MPV_ERROR_GENERIC => -20,
        }
    }

    /// The kind that `code` stands for; `None` for a code that the native
    /// library does not document.
    pub fn from_i32(code: i32) -> (kind: Option<Error>)
        ensures
            kind == Error::from_code(code as int),
            kind is Some <==> Error::is_code(code as int),
            kind matches Some(e) ==> e.code() == code,
    {
        proof {
            Error::lemma_from_code(code as int);
        }
        if code == 0 {
            Some(Error::MPV_ERROR_SUCCESS)
        } else if code == -1 {
            Some(Error::MPV_ERROR_EVENT_QUEUE_FULL)
        } else if code == -2 {
            Some(Error::MPV_ERROR_NOMEM)
        } else if code == -3 {
            Some(Error::MPV_ERROR_UNINITIALIZED)
        } else if code == -4 {
            Some(Error::MPV_ERROR_INVALID_PARAMETER)
        } else if code == -5 {
            Some(Error::MPV_ERROR_OPTION_NOT_FOUND)
        } else if code == -6 {
            Some(Error::MPV_ERROR_OPTION_FORMAT)
        } else if code == -7 {
            Some(Error::MPV_ERROR_OPTION_ERROR)
        } else if code == -8 {
            Some(Error::MPV_ERROR_PROPERTY_NOT_FOUND)
        } else if code == -9 {
            Some(Error::MPV_ERROR_PROPERTY_FORMAT)
        } else if code == -10 {
            Some(Error::MPV_ERROR_PROPERTY_UNAVAILABLE)
        } else if code == -11 {
            Some(Error::MPV_ERROR_PROPERTY_ERROR)
        } else if code == -12 {
            Some(Error::MPV_ERROR_COMMAND)
        } else if code == -13 {
            Some(Error::MPV_ERROR_LOADING_FAILED)
        } else if code == -14 {
            Some(Error::MPV_ERROR_AO_INIT_FAILED)
        } else if code == -15 {
            Some(Error::MPV_ERROR_VO_INIT_FAILED)
        } else if code == -16 {
            Some(Error::MPV_ERROR_NOTHING_TO_PLAY)
        } else if code == -17 {
            Some(Error::MPV_ERROR_UNKNOWN_FORMAT)
        } else if code == -18 {
            Some(Error::MPV_ERROR_UNSUPPORTED)
        } else if code == -19 {
            Some(Error::MPV_ERROR_NOT_IMPLEMENTED)
        } else if code == -20 {
            Some(Error::MPV_ERROR_GENERIC)
        } else {
            None
        }
    }
}

/// What a returned code says of a request: the outcome that it reports.
pub open spec fn outcome_of<T>(ret: int, value: T) -> Result<Result<T, Error>, DecodeError> {
    if ret >= 0 {
        Ok(Ok(value))
    } else {
        match Error::from_code(ret) {
            Some(kind) => Ok(Err(kind)),
            None => Err(DecodeError::UnknownErrorCode),
        }
    }
}

/// Turns the code that a native call returned into an outcome: a code of zero
/// or more is success and carries `value`, a negative code is the failure of
/// its kind. A negative code that names no kind is a fault of its own and
/// never some default kind.
pub fn ret_to_result<T>(ret: i32, value: T) -> (outcome: Result<Result<T, Error>, DecodeError>)
    ensures
        outcome == outcome_of(ret as int, value),
{
    if ret >= 0 {
        Ok(Ok(value))
    } else {
        match Error::from_i32(ret) {
            Some(kind) => Ok(Err(kind)),
            None => Err(DecodeError::UnknownErrorCode),
        }
    }
}

} // verus!
