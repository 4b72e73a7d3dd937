//! Errors of the dispatcher.
use std::num::TryFromIntError;
use vstd::prelude::*;
use vstd::std_specs::convert::FromSpecImpl;

verus! {

/// The dispatcher's own errors. Each carries the number 0x1771 and up, which the
/// framework reports after adding its offset of 6000.
#[derive(PartialEq, Eq, Structural, Clone, Copy, Debug)]
pub enum ErrorCode {
    /// Hook length exceeds maximum allowed length
    HookLengthExceeded,
    /// Hook already exists in the whitelist
    HookAlreadyExists,
    /// Number cast error
    NumberCastError,
    /// Invalid hook program
    InvalidHookProgram,
    /// Not authorized to perform this action
    Unauthorized,
    /// Hook not found in the allowed list
    HookNotFound,
    /// Hook program is not allowed in the global whitelist
    HookNotAllowed,
    /// Missing remaining account
    MissingRemainingAccount,
    /// The source token account is not in the middle of a transfer
    IsNotCurrentlyTransferring,
}

/// The number that the enum gives each error.
pub open spec fn error_discriminant(e: ErrorCode) -> u32 {
    match e {
        ErrorCode::HookLengthExceeded => 0x1771,
        ErrorCode::HookAlreadyExists => 0x1772,
        ErrorCode::NumberCastError => 0x1773,
        ErrorCode::InvalidHookProgram => 0x1774,
        ErrorCode::Unauthorized => 0x1775,
        ErrorCode::HookNotFound => 0x1776,
        ErrorCode::HookNotAllowed => 0x1777,
        ErrorCode::MissingRemainingAccount => 0x1778,
        ErrorCode::IsNotCurrentlyTransferring => 0x1779,
    }
}

impl ErrorCode {
    /// The error number that a failed instruction reports: the error's own
    /// number plus the framework's offset of 6000.
    pub fn code(&self) -> (r: u32)
        ensures
            r == error_discriminant(*self) + 6000,
    {
        let d: u32 = match self {
            ErrorCode::HookLengthExceeded => 0x1771,
            ErrorCode::HookAlreadyExists => 0x1772,
            ErrorCode::NumberCastError => 0x1773,
            ErrorCode::InvalidHookProgram => 0x1774,
            ErrorCode::Unauthorized => 0x1775,
            ErrorCode::HookNotFound => 0x1776,
            ErrorCode::HookNotAllowed => 0x1777,
            ErrorCode::MissingRemainingAccount => 0x1778,
            ErrorCode::IsNotCurrentlyTransferring => 0x1779,
        };
        d + 6000
    }

}

/// A failed integer conversion is reported as a number cast error.
impl From<TryFromIntError> for ErrorCode {
    fn from(_e: TryFromIntError) -> (r: Self) {
        ErrorCode::NumberCastError
    }
}

impl FromSpecImpl<TryFromIntError> for ErrorCode {
    open spec fn obeys_from_spec() -> bool {
        true
    }

    open spec fn from_spec(v: TryFromIntError) -> ErrorCode {
        ErrorCode::NumberCastError
    }
}

/// Why an instruction that also reads outside data failed: one of the program's
/// own errors, or the error number of a failure reported by the runtime's libraries.
#[derive(PartialEq, Eq, Structural, Clone, Copy, Debug)]
pub enum InstructionError {
    Custom(ErrorCode),
    Program(u64),
}

} // verus!
