//! Errors of the whitelist transfer hook.
use std::num::TryFromIntError;
use vstd::prelude::*;
use vstd::std_specs::convert::FromSpecImpl;

verus! {

/// The program's own errors, numbered from the framework's offset of 6000, and
/// the framework's error for a whitelist that outgrows its account.
#[derive(PartialEq, Eq, Structural, Clone, Copy, Debug)]
pub enum ErrorCode {
    /// Recipient address is not whitelisted
    RecipientNotWhitelisted,
    /// Exceeded maximum number of transfers
    ExceededMaxTransfers,
    /// Transfer amount exceeds limit
    TransferAmountExceedsLimit,
    /// Invalid transfer amount
    InvalidTransferAmount,
    /// Number cast error
    NumberCastError,
    /// Invalid account state
    InvalidAccountState,
    /// Address is already whitelisted
    AddressAlreadyWhitelisted,
    /// Address is not whitelisted
    AddressNotWhitelisted,
    /// Duplicate address in whitelist
    DuplicateAddressInWhitelist,
    /// The whitelist account cannot be written back: it has room for no more
    /// than `MAX_WHITELIST_ADDRESSES` addresses (the framework's error 3004)
    AccountDidNotSerialize,
}

/// The error number that a failed instruction reports for `e`.
pub open spec fn error_number(e: ErrorCode) -> u32 {
    match e {
        ErrorCode::RecipientNotWhitelisted => 6000,
        ErrorCode::ExceededMaxTransfers => 6001,
        ErrorCode::TransferAmountExceedsLimit => 6002,
        ErrorCode::InvalidTransferAmount => 6003,
        ErrorCode::NumberCastError => 6004,
        ErrorCode::InvalidAccountState => 6005,
        ErrorCode::AddressAlreadyWhitelisted => 6006,
        ErrorCode::AddressNotWhitelisted => 6007,
        ErrorCode::DuplicateAddressInWhitelist => 6008,
        ErrorCode::AccountDidNotSerialize => 3004,
    }
}

impl ErrorCode {
    /// The error number that a failed instruction reports.
    pub fn code(&self) -> (r: u32)
        ensures
            r == error_number(*self),
    {
        match self {
            ErrorCode::RecipientNotWhitelisted => 6000,
            ErrorCode::ExceededMaxTransfers => 6001,
            ErrorCode::TransferAmountExceedsLimit => 6002,
            ErrorCode::InvalidTransferAmount => 6003,
            ErrorCode::NumberCastError => 6004,
            ErrorCode::InvalidAccountState => 6005,
            ErrorCode::AddressAlreadyWhitelisted => 6006,
            ErrorCode::AddressNotWhitelisted => 6007,
            ErrorCode::DuplicateAddressInWhitelist => 6008,
            ErrorCode::AccountDidNotSerialize => 3004,
        }
    }

}

/// A failed integer conversion is reported as a number cast error.
impl From<TryFromIntError> for ErrorCode {
    fn from(_e: TryFromIntError) -> (r: Self) {
        ErrorCode::NumberCastError
    }
}

impl FromSpecImpl<TryFromIntError> for ErrorCode {
    open spec fn obeys_from_spec() -> bool {
        true
    }

    open spec fn from_spec(v: TryFromIntError) -> ErrorCode {
        ErrorCode::NumberCastError
    }
}

} // verus!
