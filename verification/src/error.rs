//! Errors of the library and the integer codes that report them over FFI.

use vstd::prelude::*;
use vstd::string::*;
use vstd::utf8::*;
use crate::text::{decimal_text, push_decimal_i64};

verus! {

/// Return codes handed to C callers.
#[derive(Debug, Clone, Copy, PartialEq, Eq, Structural)]
pub enum FFIEnum {
    /// No error
    Success,
    /// A null pointer was met
    NullError,
    /// Any other error
    UnknownError,
    /// A C string could not be turned into a Rust string
    CStringError,
    /// The service was started while already running
    AlreadyRunning,
    /// The service was stopped while not running
    NotRunning,
}

/// Errors raised by the library.
#[derive(Debug, Clone, PartialEq, Eq)]
pub enum HamsError {
    /// A C string could not be turned into a `String`
    CStringToString,
    /// A C string was not valid UTF-8
    Utf8Error,
    /// A return code that denotes success was read as an error
    NotError(i32),
    /// A probe is not good
    ProbeNotGood(String),
    /// The service is not running
    NotRunning,
    /// A preflight check failed
    PreflightCheck,
    /// A shutdown check failed
    ShutdownCheck,
    /// The service was started while already running
    AlreadyRunning,
    /// The service was cancelled
    Cancelled,
    /// A callback failed
    CallbackError,
    /// The buffer handed out for the last FFI error message was too small
    FFIErrorBufferNotBigEnough,
    /// A number did not fit the integer type it was converted to
    TryFromIntError,
    /// A time lay before the UNIX epoch
    SystemTimeError,
    /// An I/O error, with its description
    IoError(String),
    /// The service thread could not be joined
    JoinError2,
    /// A task could not be joined
    JoinError,
    /// A signal could not be sent on a channel
    SendError,
    /// No service thread was there to join on stop
    NoThread,
    /// A lock was poisoned
    PoisonError,
    /// An error reported through the FFI error slot, with its message
    FFIError(String),
    /// A free-form error message
    Message(String),
    /// A string meant for C held an interior NUL byte
    NulError,
    /// An error of unknown origin
    Unknown,
}

impl FFIEnum {
    /// The C return code of each variant.
    pub open spec fn spec_code(self) -> i32 {
        match self {
            FFIEnum::Success => 1i32,
            FFIEnum::NullError => 0i32,
            FFIEnum::UnknownError => -1i32,
            FFIEnum::CStringError => -2i32,
            FFIEnum::AlreadyRunning => -3i32,
            FFIEnum::NotRunning => -4i32,
        }
    }

    /// The C return code of this variant.
    pub fn code(&self) -> (r: i32)
        ensures
            r == self.spec_code(),
    {
        match self {
            FFIEnum::Success => 1,
            FFIEnum::NullError => 0,
            FFIEnum::UnknownError => -1,
            FFIEnum::CStringError => -2,
            FFIEnum::AlreadyRunning => -3,
            FFIEnum::NotRunning => -4,
        }
    }

    /// What reading a C return code gives: the variant with that code; for another
    /// non-negative value `NotError`, and for another negative value `Unknown`.
    pub open spec fn spec_try_from(value: i32) -> Result<FFIEnum, HamsError> {
        if value == 1 {
            Ok(FFIEnum::Success)
        } else if value == 0 {
            Ok(FFIEnum::NullError)
        } else if value == -1 {
            Ok(FFIEnum::UnknownError)
        } else if value == -2 {
            Ok(FFIEnum::CStringError)
        } else if value == -3 {
            Ok(FFIEnum::AlreadyRunning)
        } else if value == -4 {
            Ok(FFIEnum::NotRunning)
        } else if value >= 0 {
            Err(HamsError::NotError(value))
        } else {
            Err(HamsError::Unknown)
        }
    }

    /// Reads a C return code.
    pub fn try_from(value: i32) -> (r: Result<FFIEnum, HamsError>)
        ensures
            r == FFIEnum::spec_try_from(value),
    {
        if value == 1 {
            Ok(FFIEnum::Success)
        } else if value == 0 {
            Ok(FFIEnum::NullError)
        } else if value == -1 {
            Ok(FFIEnum::UnknownError)
        } else if value == -2 {
            Ok(FFIEnum::CStringError)
        } else if value == -3 {
            Ok(FFIEnum::AlreadyRunning)
        } else if value == -4 {
            Ok(FFIEnum::NotRunning)
        } else if value >= 0 {
            Err(HamsError::NotError(value))
        } else {
            Err(HamsError::Unknown)
        }
    }

    /// The code reported for an error: C string conversion errors and NUL errors have
    /// their own codes, everything else is `UnknownError`.
    pub open spec fn spec_from_error(err: HamsError) -> FFIEnum {
        match err {
            HamsError::CStringToString => FFIEnum::CStringError,
            HamsError::NulError => FFIEnum::NullError,
            _ => FFIEnum::UnknownError,
        }
    }

    /// The code reported for an error.
    pub fn from_error(err: &HamsError) -> (r: FFIEnum)
        ensures
            r == FFIEnum::spec_from_error(*err),
    {
        match err {
            HamsError::CStringToString => FFIEnum::CStringError,
            HamsError::NulError => FFIEnum::NullError,
            _ => FFIEnum::UnknownError,
        }
    }
}

/// The code handed back to C for a failure caught at the boundary: zero, the null value
/// of an integer return.
pub const FAILURE_CODE: i32 = 0;

/// The reply to C of a stop request, given how the stop went: the return code, and the
/// error to record as the last error, if any. A stop of a service that is not running
/// is reported with its own code; any other failure with the failure code.
pub open spec fn spec_stop_reply(res: Result<(), HamsError>) -> (i32, Option<HamsError>) {
    match res {
        Ok(()) => (FFIEnum::Success.spec_code(), None),
        Err(HamsError::NotRunning) => (FFIEnum::NotRunning.spec_code(), Some(HamsError::NotRunning)),
        Err(e) => (FAILURE_CODE, Some(e)),
    }
}

/// The reply to C of a stop request: its return code and the error to record.
pub fn stop_reply(res: Result<(), HamsError>) -> (r: (i32, Option<HamsError>))
    ensures
        r == spec_stop_reply(res),
{
    match res {
        Ok(()) => (FFIEnum::Success.code(), None),
        Err(HamsError::NotRunning) => (FFIEnum::NotRunning.code(), Some(HamsError::NotRunning)),
        Err(e) => (FAILURE_CODE, Some(e)),
    }
}

/// Every code read back gives the variant that wrote it.
pub proof fn law_code_round_trip(e: FFIEnum)
    ensures
        FFIEnum::spec_try_from(e.spec_code()) == Ok::<FFIEnum, HamsError>(e),
{
}

/// Distinct variants have distinct codes.
pub proof fn law_codes_distinct(a: FFIEnum, b: FFIEnum)
    requires
        a != b,
    ensures
        a.spec_code() != b.spec_code(),
{
}

} // verus!

verus! {

impl HamsError {
    /// The message shown for each error.
    pub open spec fn spec_text(self) -> Seq<char> {
        match self {
            HamsError::CStringToString => "CString to String conversion error"@,
            HamsError::Utf8Error => "CString to str conversion error"@,
            HamsError::NotError(v) => "Not an error as return was "@ + decimal_text(v as int),
            HamsError::ProbeNotGood(_) => "Probe is not good"@,
            HamsError::NotRunning => "Service is not running"@,
            HamsError::PreflightCheck => "Preflight check failed"@,
            HamsError::ShutdownCheck => "Shutdown check failed"@,
            HamsError::AlreadyRunning => "Service is already running and cannot be started again"@,
            HamsError::Cancelled => "Service was cancelled"@,
            HamsError::CallbackError => "Error calling callback"@,
            HamsError::FFIErrorBufferNotBigEnough => "FFI error buffer wasn't big enough!"@,
            HamsError::TryFromIntError => "TryFromIntError converting to int"@,
            HamsError::SystemTimeError => "SystemTimeError converting to Duration"@,
            HamsError::IoError(_) => "io::Error eg from tokio start"@,
            HamsError::JoinError2 => "JoinError2"@,
            HamsError::JoinError => "JoinError"@,
            HamsError::SendError => "Error sending mpsc signal to channel"@,
            HamsError::NoThread => "NoThread to join on stop"@,
            HamsError::PoisonError => "PoisonError from MutexGuard"@,
            HamsError::FFIError(msg) => "FFI Error: "@ + msg@,
            HamsError::Message(msg) => "Generic error message (use sparigly): `"@ + msg@ + "`"@,
            HamsError::NulError => "NulError from FFI pointer"@,
            HamsError::Unknown => "Unknown error"@,
        }
    }

    /// A copy of this error.
    pub fn duplicate(&self) -> (r: HamsError)
        ensures
            r == *self,
    {
        match self {
            HamsError::CStringToString => HamsError::CStringToString,
            HamsError::Utf8Error => HamsError::Utf8Error,
            HamsError::NotError(v) => HamsError::NotError(*v),
            HamsError::ProbeNotGood(s) => HamsError::ProbeNotGood(s.clone()),
            HamsError::NotRunning => HamsError::NotRunning,
            HamsError::PreflightCheck => HamsError::PreflightCheck,
            HamsError::ShutdownCheck => HamsError::ShutdownCheck,
            HamsError::AlreadyRunning => HamsError::AlreadyRunning,
            HamsError::Cancelled => HamsError::Cancelled,
            HamsError::CallbackError => HamsError::CallbackError,
            HamsError::FFIErrorBufferNotBigEnough => HamsError::FFIErrorBufferNotBigEnough,
            HamsError::TryFromIntError => HamsError::TryFromIntError,
            HamsError::SystemTimeError => HamsError::SystemTimeError,
            HamsError::IoError(s) => HamsError::IoError(s.clone()),
            HamsError::JoinError2 => HamsError::JoinError2,
            HamsError::JoinError => HamsError::JoinError,
            HamsError::SendError => HamsError::SendError,
            HamsError::NoThread => HamsError::NoThread,
            HamsError::PoisonError => HamsError::PoisonError,
            HamsError::FFIError(s) => HamsError::FFIError(s.clone()),
            HamsError::Message(s) => HamsError::Message(s.clone()),
            HamsError::NulError => HamsError::NulError,
            HamsError::Unknown => HamsError::Unknown,
        }
    }

    /// The message shown for this error.
    pub fn to_string(&self) -> (r: String)
        ensures
            r@ == self.spec_text(),
    {
        match self {
            HamsError::CStringToString => String::from_str("CString to String conversion error"),
            HamsError::Utf8Error => String::from_str("CString to str conversion error"),
            HamsError::NotError(v) => {
                let mut s = String::from_str("Not an error as return was ");
                push_decimal_i64(&mut s, *v as i64);
                s
            },
            HamsError::ProbeNotGood(_) => String::from_str("Probe is not good"),
            HamsError::NotRunning => String::from_str("Service is not running"),
            HamsError::PreflightCheck => String::from_str("Preflight check failed"),
            HamsError::ShutdownCheck => String::from_str("Shutdown check failed"),
            HamsError::AlreadyRunning => String::from_str(
                "Service is already running and cannot be started again",
            ),
            HamsError::Cancelled => String::from_str("Service was cancelled"),
            HamsError::CallbackError => String::from_str("Error calling callback"),
            HamsError::FFIErrorBufferNotBigEnough => String::from_str(
                "FFI error buffer wasn't big enough!",
            ),
            HamsError::TryFromIntError => String::from_str("TryFromIntError converting to int"),
            HamsError::SystemTimeError => String::from_str(
                "SystemTimeError converting to Duration",
            ),
            HamsError::IoError(_) => String::from_str("io::Error eg from tokio start"),
            HamsError::JoinError2 => String::from_str("JoinError2"),
            HamsError::JoinError => String::from_str("JoinError"),
            HamsError::SendError => String::from_str("Error sending mpsc signal to channel"),
            HamsError::NoThread => String::from_str("NoThread to join on stop"),
            HamsError::PoisonError => String::from_str("PoisonError from MutexGuard"),
            HamsError::FFIError(msg) => {
                let mut s = String::from_str("FFI Error: ");
                s.append(msg.as_str());
                s
            },
            HamsError::Message(msg) => {
                let mut s = String::from_str("Generic error message (use sparigly): `");
                s.append(msg.as_str());
                s.append("`");
                s
            },
            HamsError::NulError => String::from_str("NulError from FFI pointer"),
            HamsError::Unknown => String::from_str("Unknown error"),
        }
    }
}

} // verus!

verus! {

/// `String::from_utf8`: the bytes as a string when they are valid UTF-8.
/// Claimed: the result is present exactly when the bytes are valid UTF-8, and then holds
/// the characters they encode.
#[verifier::external_body]
fn string_from_utf8(bytes: Vec<u8>) -> (r: Option<String>)
    ensures
        r is Some <==> valid_utf8(bytes@),
        r matches Some(s) ==> s@ == decode_utf8(bytes@),
{
    String::from_utf8(bytes).ok()
}

/// The bytes of the message in the error buffer: the count written, less the
/// terminating NUL, and never more than the buffer holds.
pub open spec fn message_bytes(bytes_written: i32, buffer: Seq<u8>) -> Seq<u8> {
    if bytes_written - 1 < buffer.len() {
        buffer.take(bytes_written - 1)
    } else {
        buffer
    }
}

/// Reads the last FFI error back from the buffer it was copied into: -1 means the
/// buffer was too small, 0 that there was no error, and a positive count a message of
/// that many bytes including its terminating NUL.
pub fn error_from_buffer(bytes_written: i32, buffer: Vec<u8>) -> (r: Result<(), HamsError>)
    requires
        bytes_written >= -1,
        bytes_written > 0 ==> valid_utf8(message_bytes(bytes_written, buffer@)),
    ensures
        bytes_written == -1 ==> r == Err::<(), HamsError>(HamsError::FFIErrorBufferNotBigEnough),
        bytes_written == 0 ==> r == Ok::<(), HamsError>(()),
        bytes_written > 0 ==> (r matches Err(HamsError::FFIError(msg))
            && msg@ == decode_utf8(message_bytes(bytes_written, buffer@))),
{
    if bytes_written == -1 {
        Err(HamsError::FFIErrorBufferNotBigEnough)
    } else if bytes_written == 0 {
        Ok(())
    } else {
        let ghost whole = buffer@;
        let mut buffer = buffer;
        let keep: usize = (bytes_written - 1) as usize;
        buffer.truncate(keep);
        assert(buffer@ == message_bytes(bytes_written, whole));
        match string_from_utf8(buffer) {
            Some(msg) => Err(HamsError::FFIError(msg)),
            None => Err(HamsError::Unknown),
        }
    }
}

} // verus!
