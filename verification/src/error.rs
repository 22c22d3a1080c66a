use vstd::prelude::*;

verus! {

/// Why an operation was rejected. A rejected operation has changed nothing.
#[derive(Clone, Copy, Debug, PartialEq, Eq, Structural)]
pub enum ErrorCode {
    /// The caller is not the identity that the operation requires.
    Unauthorized,
    /// An address or receiver string is empty.
    InvalidAddress,
    /// A gas limit of zero was given.
    InvalidGasLimit,
    /// The asset is burned, or in flight to another chain.
    TokenNotExists,
    /// The record is not in the state that the operation needs: the supplied
    /// identifier differs from the origin ledger's, or there is nothing to
    /// revert.
    InvalidState,
    /// The program is paused.
    ContractPaused,
    /// The program is paused already.
    AlreadyPaused,
    /// The program is not paused.
    NotPaused,
    /// The storage slot that the operation would create exists already.
    AlreadyExists,
    /// The storage slot that the operation addresses does not exist.
    NotFound,
    /// A string is longer than its field allows.
    FieldTooLong,
    /// A counter or an identifier would leave the 64-bit range.
    ArithmeticOverflow,
}

/// The classes into which the errors fall.
#[derive(Clone, Copy, Debug, PartialEq, Eq, Structural)]
pub enum ErrorKind {
    Unauthorized,
    InvalidArgument,
    InvalidState,
    NotFound,
    AlreadyExists,
}

impl ErrorCode {
    /// The class of an error.
    pub open spec fn spec_kind(self) -> ErrorKind {
        match self {
            ErrorCode::Unauthorized => ErrorKind::Unauthorized,
            ErrorCode::InvalidAddress => ErrorKind::InvalidArgument,
            ErrorCode::InvalidGasLimit => ErrorKind::InvalidArgument,
            ErrorCode::FieldTooLong => ErrorKind::InvalidArgument,
            ErrorCode::TokenNotExists => ErrorKind::InvalidState,
            ErrorCode::InvalidState => ErrorKind::InvalidState,
            ErrorCode::ContractPaused => ErrorKind::InvalidState,
            ErrorCode::AlreadyPaused => ErrorKind::InvalidState,
            ErrorCode::NotPaused => ErrorKind::InvalidState,
            ErrorCode::ArithmeticOverflow => ErrorKind::InvalidState,
            ErrorCode::AlreadyExists => ErrorKind::AlreadyExists,
            ErrorCode::NotFound => ErrorKind::NotFound,
        }
    }

    /// The class of an error.
    pub fn kind(&self) -> (k: ErrorKind)
        ensures
            k == self.spec_kind(),
    {
        match self {
            ErrorCode::Unauthorized => ErrorKind::Unauthorized,
            ErrorCode::InvalidAddress => ErrorKind::InvalidArgument,
            ErrorCode::InvalidGasLimit => ErrorKind::InvalidArgument,
            ErrorCode::FieldTooLong => ErrorKind::InvalidArgument,
            ErrorCode::TokenNotExists => ErrorKind::InvalidState,
            ErrorCode::InvalidState => ErrorKind::InvalidState,
            ErrorCode::ContractPaused => ErrorKind::InvalidState,
            ErrorCode::AlreadyPaused => ErrorKind::InvalidState,
            ErrorCode::NotPaused => ErrorKind::InvalidState,
            ErrorCode::ArithmeticOverflow => ErrorKind::InvalidState,
            ErrorCode::AlreadyExists => ErrorKind::AlreadyExists,
            ErrorCode::NotFound => ErrorKind::NotFound,
        }
    }

    /// The text that describes an error.
    pub open spec fn spec_message(self) -> Seq<char> {
        match self {
            ErrorCode::Unauthorized => "Unauthorized access"@,
            ErrorCode::InvalidAddress => "Invalid address"@,
            ErrorCode::InvalidGasLimit => "Invalid gas limit"@,
            ErrorCode::TokenNotExists => "Token does not exist or is burned"@,
            ErrorCode::InvalidState => "Invalid state for operation"@,
            ErrorCode::ContractPaused => "Contract is paused"@,
            ErrorCode::AlreadyPaused => "Contract is already paused"@,
            ErrorCode::NotPaused => "Contract is not paused"@,
            ErrorCode::AlreadyExists => "Entry already exists"@,
            ErrorCode::NotFound => "Entry not found"@,
            ErrorCode::FieldTooLong => "Text is too long for its field"@,
            ErrorCode::ArithmeticOverflow => "Arithmetic overflow"@,
        }
    }

    /// The text that describes an error.
    pub fn message(&self) -> (text: String)
        ensures
            text@ == self.spec_message(),
    {
        let text: &str = match self {
            ErrorCode::Unauthorized => "Unauthorized access",
            ErrorCode::InvalidAddress => "Invalid address",
            ErrorCode::InvalidGasLimit => "Invalid gas limit",
            ErrorCode::TokenNotExists => "Token does not exist or is burned",
            ErrorCode::InvalidState => "Invalid state for operation",
            ErrorCode::ContractPaused => "Contract is paused",
            ErrorCode::AlreadyPaused => "Contract is already paused",
            ErrorCode::NotPaused => "Contract is not paused",
            ErrorCode::AlreadyExists => "Entry already exists",
            ErrorCode::NotFound => "Entry not found",
            ErrorCode::FieldTooLong => "Text is too long for its field",
            ErrorCode::ArithmeticOverflow => "Arithmetic overflow",
        };
        text.to_string()
    }
}

} // verus!
