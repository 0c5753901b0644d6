//! What the native interface reports, and the errors the library makes of it.
use vstd::prelude::*;
use crate::error::{error_of, ErrorView, MnnError, Result};

verus! {

/// The status code a native call returns.
#[derive(Debug, Clone, Copy, PartialEq, Eq, Structural)]
pub enum ErrorCode {
    Success,
    InvalidParameter,
    OutOfMemory,
    Unsupported,
    /// Any other failure, with the code the native side gave.
    Other(i32),
}

/// The text of the last error of an engine. `engine` is `None` where no engine was
/// created; otherwise it holds what the engine reported, `None` where it reported nothing.
pub open spec fn spec_last_error_message(engine: Option<Option<String>>) -> Seq<char> {
    match engine {
        None => "Engine creation failed"@,
        Some(None) => "Unknown error"@,
        Some(Some(msg)) => msg@,
    }
}

/// The text of the last error of a module, as `spec_last_error_message` for engines.
pub open spec fn spec_last_module_error_message(module: Option<Option<String>>) -> Seq<char> {
    match module {
        None => "Module creation failed"@,
        Some(None) => "Unknown module error"@,
        Some(Some(msg)) => msg@,
    }
}

/// The error a failed native call stands for, given the text of the last error.
/// Where `distinguishes_unsupported` is false, an `Unsupported` code counts as a runtime error.
pub open spec fn spec_status_error(
    code: ErrorCode,
    detail: Seq<char>,
    distinguishes_unsupported: bool,
) -> Option<ErrorView> {
    match code {
        ErrorCode::Success => None,
        ErrorCode::InvalidParameter => Some(ErrorView::InvalidParameter(detail)),
        ErrorCode::OutOfMemory => Some(ErrorView::OutOfMemory),
        ErrorCode::Unsupported => if distinguishes_unsupported {
            Some(ErrorView::Unsupported)
        } else {
            Some(ErrorView::RuntimeError(detail))
        },
        ErrorCode::Other(_) => Some(ErrorView::RuntimeError(detail)),
    }
}

/// The text of the last error of an engine (see `spec_last_error_message`).
pub fn get_last_error_message(engine: Option<Option<String>>) -> (text: String)
    ensures
        text@ == spec_last_error_message(engine),
{
    match engine {
        None => String::from_str("Engine creation failed"),
        Some(None) => String::from_str("Unknown error"),
        Some(Some(msg)) => msg,
    }
}

/// The text of the last error of a module (see `spec_last_module_error_message`).
pub fn get_last_module_error_message(module: Option<Option<String>>) -> (text: String)
    ensures
        text@ == spec_last_module_error_message(module),
{
    match module {
        None => String::from_str("Module creation failed"),
        Some(None) => String::from_str("Unknown module error"),
        Some(Some(msg)) => msg,
    }
}

/// Turns the status of a native call into a result; `detail` is the text of the
/// last error, used by the errors that carry one.
pub fn status_result(code: ErrorCode, detail: String, distinguishes_unsupported: bool) -> (r:
    Result<()>)
    ensures
        error_of(r) == spec_status_error(code, detail@, distinguishes_unsupported),
{
    match code {
        ErrorCode::Success => Ok(()),
        ErrorCode::InvalidParameter => Err(MnnError::InvalidParameter(detail)),
        ErrorCode::OutOfMemory => Err(MnnError::OutOfMemory),
        ErrorCode::Unsupported => {
            if distinguishes_unsupported {
                Err(MnnError::Unsupported)
            } else {
                Err(MnnError::RuntimeError(detail))
            }
        },
        ErrorCode::Other(_) => Err(MnnError::RuntimeError(detail)),
    }
}

/// The text of the native library's version; `reported` is what the library gave,
/// `None` where it gave nothing.
pub fn get_version(reported: Option<String>) -> (text: String)
    ensures
        text@ == (match reported {
            Some(v) => v@,
            None => "unknown"@,
        }),
{
    match reported {
        Some(v) => v,
        None => String::from_str("unknown"),
    }
}

} // verus!
