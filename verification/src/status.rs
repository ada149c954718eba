//! The engine's status-code space and its translation into a structured
//! error taxonomy.
//!
//! Every operation of the unwind engine reports a signed status code.
//! Codes at or above [`UNW_ESUCCESS`] mean success; each known negative
//! code maps to exactly one named error kind, and any other negative code
//! is preserved inside [`UnwindError::Unknown`].

use vstd::prelude::*;

verus! {

/// Status code reported on success.
pub const UNW_ESUCCESS: i32 = 0;

/// Status code for an unspecified or general failure.
pub const UNW_EUNSPEC: i32 = -6540;

/// Status code for memory exhaustion inside the engine.
pub const UNW_ENOMEM: i32 = -6541;

/// Status code for an invalid or inaccessible register.
pub const UNW_EBADREG: i32 = -6542;

/// Status code for a write to a read-only register.
pub const UNW_EREADONLYREG: i32 = -6543;

/// Status code asking the caller to stop unwinding.
pub const UNW_ESTOPUNWIND: i32 = -6544;

/// Status code for an invalid instruction pointer.
pub const UNW_EINVALIDIP: i32 = -6545;

/// Status code for a bad stack frame.
pub const UNW_EBADFRAME: i32 = -6546;

/// Status code for an unsupported operation or a bad value.
pub const UNW_EINVAL: i32 = -6547;

/// Status code for unwind info with an unsupported version.
pub const UNW_EBADVERSION: i32 = -6548;

/// Status code for missing unwind info.
pub const UNW_ENOINFO: i32 = -6549;

/// An error that can occur during unwinding.
#[derive(Clone, Copy, Debug, PartialEq, Eq, Structural)]
pub enum UnwindError {
    /// Unspecified/general error.
    Unspecified,
    /// Out of memory
    NoMemory,
    /// Invalid register
    BadRegister,
    /// Attempt to write to a read-only register
    WriteToReadOnlyRegister,
    /// Stop unwinding
    StopUnwinding,
    /// Invalid instruction pointer
    InvalidIP,
    /// Bad frame
    BadFrame,
    /// Unsupported operation or bad value
    BadValue,
    /// Unwind info has unsupported version
    BadVersion,
    /// No unwind info found
    NoInfo,
    /// An error with an unknown error code occured
    Unknown {
        /// The error's code
        code: i32,
    },
}

/// What classification returns for a given status code: success keeps the
/// raw code, each known failure code maps to its named kind, and every
/// other failure code is preserved in `Unknown`.
pub open spec fn classify_code(code: i32) -> Result<i32, UnwindError> {
    if code >= UNW_ESUCCESS {
        Ok(code)
    } else if code == UNW_EUNSPEC {
        Err(UnwindError::Unspecified)
    } else if code == UNW_ENOMEM {
        Err(UnwindError::NoMemory)
    } else if code == UNW_EBADREG {
        Err(UnwindError::BadRegister)
    } else if code == UNW_EREADONLYREG {
        Err(UnwindError::WriteToReadOnlyRegister)
    } else if code == UNW_ESTOPUNWIND {
        Err(UnwindError::StopUnwinding)
    } else if code == UNW_EINVALIDIP {
        Err(UnwindError::InvalidIP)
    } else if code == UNW_EBADFRAME {
        Err(UnwindError::BadFrame)
    } else if code == UNW_EINVAL {
        Err(UnwindError::BadValue)
    } else if code == UNW_EBADVERSION {
        Err(UnwindError::BadVersion)
    } else if code == UNW_ENOINFO {
        Err(UnwindError::NoInfo)
    } else {
        Err(UnwindError::Unknown { code })
    }
}

impl UnwindError {
    /// Creates a `Result` that is `Ok` if the error code represents a success
    /// and `Err` if it represents an error.
    pub fn from_code(code: i32) -> (r: Result<i32, UnwindError>)
        ensures
            r == classify_code(code),
            r is Ok <==> code >= UNW_ESUCCESS,
            r matches Ok(c) ==> c == code,
    {
        if code >= UNW_ESUCCESS {
            Ok(code)
        } else {
            Err(
                match code {
                    UNW_EUNSPEC => UnwindError::Unspecified,
                    UNW_ENOMEM => UnwindError::NoMemory,
                    UNW_EBADREG => UnwindError::BadRegister,
                    UNW_EREADONLYREG => UnwindError::WriteToReadOnlyRegister,
                    UNW_ESTOPUNWIND => UnwindError::StopUnwinding,
                    UNW_EINVALIDIP => UnwindError::InvalidIP,
                    UNW_EBADFRAME => UnwindError::BadFrame,
                    UNW_EINVAL => UnwindError::BadValue,
                    UNW_EBADVERSION => UnwindError::BadVersion,
                    UNW_ENOINFO => UnwindError::NoInfo,
                    _ => UnwindError::Unknown { code },
                },
            )
        }
    }
}

/// Classification is a total, deterministic function of the status code:
/// equal codes classify alike, every named engine constant maps to its
/// named kind, and every other failure code keeps its raw value inside
/// `Unknown`.
pub proof fn lemma_classification_total(a: i32, b: i32)
    ensures
        a == b ==> classify_code(a) == classify_code(b),
        forall|code: i32| code >= UNW_ESUCCESS ==> classify_code(code) == Ok::<i32, UnwindError>(code),
        classify_code(UNW_EUNSPEC) == Err::<i32, UnwindError>(UnwindError::Unspecified),
        classify_code(UNW_ENOMEM) == Err::<i32, UnwindError>(UnwindError::NoMemory),
        classify_code(UNW_EBADREG) == Err::<i32, UnwindError>(UnwindError::BadRegister),
        classify_code(UNW_EREADONLYREG) == Err::<i32, UnwindError>(
            UnwindError::WriteToReadOnlyRegister,
        ),
        classify_code(UNW_ESTOPUNWIND) == Err::<i32, UnwindError>(UnwindError::StopUnwinding),
        classify_code(UNW_EINVALIDIP) == Err::<i32, UnwindError>(UnwindError::InvalidIP),
        classify_code(UNW_EBADFRAME) == Err::<i32, UnwindError>(UnwindError::BadFrame),
        classify_code(UNW_EINVAL) == Err::<i32, UnwindError>(UnwindError::BadValue),
        classify_code(UNW_EBADVERSION) == Err::<i32, UnwindError>(UnwindError::BadVersion),
        classify_code(UNW_ENOINFO) == Err::<i32, UnwindError>(UnwindError::NoInfo),
        forall|code: i32|
            code < UNW_ESUCCESS && code != UNW_EUNSPEC && code != UNW_ENOMEM && code != UNW_EBADREG
                && code != UNW_EREADONLYREG && code != UNW_ESTOPUNWIND && code != UNW_EINVALIDIP
                && code != UNW_EBADFRAME && code != UNW_EINVAL && code != UNW_EBADVERSION && code
                != UNW_ENOINFO ==> classify_code(code) == Err::<i32, UnwindError>(
                UnwindError::Unknown { code },
            ),
{
}

} // verus!
