//! The error value every command reports: a code of three kinds and a
//! human-readable message.

use vstd::prelude::*;

verus! {

/// The three kinds of failure a command can report.
#[derive(Debug, Clone, Copy, PartialEq, Eq, Structural)]
pub enum ErrorCode {
    /// Input failed validation.
    Validation,
    /// The target does not exist.
    NotFound,
    /// Internal failure, such as a storage error.
    Internal,
}

/// The wire text of each error code.
pub open spec fn code_text(code: ErrorCode) -> Seq<char> {
    match code {
        ErrorCode::Validation => "E_VALIDATION"@,
        ErrorCode::NotFound => "E_NOT_FOUND"@,
        ErrorCode::Internal => "E_INTERNAL"@,
    }
}

impl ErrorCode {
    /// The wire text of this code, as the front end receives it.
    pub fn as_str(&self) -> (s: &'static str)
        ensures
            s@ == code_text(*self),
    {
        match self {
            ErrorCode::Validation => "E_VALIDATION",
            ErrorCode::NotFound => "E_NOT_FOUND",
            ErrorCode::Internal => "E_INTERNAL",
        }
    }
}

/// Distinct codes have distinct wire texts, so the front end can tell
/// every kind of failure apart by its text alone.
pub proof fn lemma_code_text_injective(a: ErrorCode, b: ErrorCode)
    ensures
        code_text(a) == code_text(b) <==> a == b,
{
    reveal_strlit("E_VALIDATION");
    reveal_strlit("E_NOT_FOUND");
    reveal_strlit("E_INTERNAL");
    if a != b {
        match (a, b) {
            (ErrorCode::Validation, ErrorCode::NotFound) => assert(code_text(a)[2] != code_text(b)[2]),
            (ErrorCode::NotFound, ErrorCode::Validation) => assert(code_text(a)[2] != code_text(b)[2]),
            (ErrorCode::Validation, ErrorCode::Internal) => assert(code_text(a).len() != code_text(b).len()),
            (ErrorCode::Internal, ErrorCode::Validation) => assert(code_text(a).len() != code_text(b).len()),
            (ErrorCode::NotFound, ErrorCode::Internal) => assert(code_text(a)[2] != code_text(b)[2]),
            (ErrorCode::Internal, ErrorCode::NotFound) => assert(code_text(a)[2] != code_text(b)[2]),
            _ => {},
        }
    }
}

/// A failure reported to the front end: `{ code, message }`.
#[derive(Debug, Clone, PartialEq, Eq)]
pub struct AppError {
    pub code: ErrorCode,
    pub message: String,
}

/// rusqlite's `Error`, declared so that a storage failure can be handed to
/// `AppError::from_storage`; nothing inside it is read.
#[verifier::external_type_specification]
#[verifier::external_body]
pub struct ExStorageError(rusqlite::Error);

impl AppError {
    /// A validation failure with the given message.
    pub fn validation(message: &str) -> (e: AppError)
        ensures
            e.code == ErrorCode::Validation,
            e.message@ == message@,
    {
        AppError { code: ErrorCode::Validation, message: String::from_str(message) }
    }

    /// A missing-target failure with the given message.
    pub fn not_found(message: &str) -> (e: AppError)
        ensures
            e.code == ErrorCode::NotFound,
            e.message@ == message@,
    {
        AppError { code: ErrorCode::NotFound, message: String::from_str(message) }
    }

    /// An internal failure with the given message.
    pub fn internal(message: &str) -> (e: AppError)
        ensures
            e.code == ErrorCode::Internal,
            e.message@ == message@,
    {
        AppError { code: ErrorCode::Internal, message: String::from_str(message) }
    }

    /// Every storage failure is reported as the same internal error; the
    /// storage layer's own detail is not passed on to the front end.
    pub fn from_storage(_e: rusqlite::Error) -> (e: AppError)
        ensures
            e.code == ErrorCode::Internal,
            e.message@ == "数据库操作失败"@,
    {
        AppError::internal("数据库操作失败")
    }
}

} // verus!
