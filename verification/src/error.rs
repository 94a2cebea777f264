//! The errors of the vault, the families they fall into, and the codes under
//! which the host reports them.

use vstd::prelude::*;

verus! {

/// Why the vault refused an operation.
#[derive(Clone, Copy, Debug, PartialEq, Eq, Structural)]
pub enum BasketError {
    Unauthorized,
    InsufficientDeposit,
    MathOverflow,
    WeightOverflow,
    InvalidTokenCount,
    InvalidAccountCount,
    InvalidTokenMint,
    InvalidTokenOwner,
    SlippageExceeded,
    TooManyTokens,
    TokenNotFound,
    DuplicateToken,
    ProgramPaused,
    ReentrancyDetected,
    InsufficientBalance,
}

/// The families into which the errors fall.
#[derive(Clone, Copy, Debug, PartialEq, Eq, Structural)]
pub enum ErrorKind {
    /// The caller is not the authority.
    Authorization,
    /// The vault is paused, or an operation is already in flight.
    StateGuard,
    /// The registry is full, already holds the asset, or does not hold it.
    Capacity,
    /// Weights, amounts, balances or list lengths do not add up.
    Accounting,
    /// A custody account is of the wrong asset or has the wrong owner.
    ExternalValidation,
    /// The venue returned less than the caller's declared minimum.
    Market,
}

/// First code of the range in which the host reports this program's errors.
pub const ERROR_CODE_OFFSET: u32 = 6000;

impl BasketError {
    /// Position of the error in the enumeration, counted from zero.
    pub open spec fn spec_index(self) -> nat {
        match self {
            BasketError::Unauthorized => 0,
            BasketError::InsufficientDeposit => 1,
            BasketError::MathOverflow => 2,
            BasketError::WeightOverflow => 3,
            BasketError::InvalidTokenCount => 4,
            BasketError::InvalidAccountCount => 5,
            BasketError::InvalidTokenMint => 6,
            BasketError::InvalidTokenOwner => 7,
            BasketError::SlippageExceeded => 8,
            BasketError::TooManyTokens => 9,
            BasketError::TokenNotFound => 10,
            BasketError::DuplicateToken => 11,
            BasketError::ProgramPaused => 12,
            BasketError::ReentrancyDetected => 13,
            BasketError::InsufficientBalance => 14,
        }
    }

    pub open spec fn spec_code(self) -> u32 {
        (ERROR_CODE_OFFSET + self.spec_index()) as u32
    }

    pub open spec fn spec_kind(self) -> ErrorKind {
        match self {
            BasketError::Unauthorized => ErrorKind::Authorization,
            BasketError::ProgramPaused | BasketError::ReentrancyDetected => ErrorKind::StateGuard,
            BasketError::TooManyTokens | BasketError::DuplicateToken | BasketError::TokenNotFound =>
                ErrorKind::Capacity,
            BasketError::InvalidTokenMint | BasketError::InvalidTokenOwner =>
                ErrorKind::ExternalValidation,
            BasketError::SlippageExceeded => ErrorKind::Market,
            BasketError::InsufficientDeposit
            | BasketError::MathOverflow
            | BasketError::WeightOverflow
            | BasketError::InvalidTokenCount
            | BasketError::InvalidAccountCount
            | BasketError::InsufficientBalance => ErrorKind::Accounting,
        }
    }

    pub open spec fn spec_message(self) -> Seq<char> {
        match self {
            BasketError::Unauthorized => "Unauthorized"@,
            BasketError::InsufficientDeposit => "Insufficient deposit"@,
            BasketError::MathOverflow => "Math overflow"@,
            BasketError::WeightOverflow => "Weight overflow"@,
            BasketError::InvalidTokenCount => "Invalid token count"@,
            BasketError::InvalidAccountCount => "Invalid account count"@,
            BasketError::InvalidTokenMint => "Invalid token mint"@,
            BasketError::InvalidTokenOwner => "Invalid token owner"@,
            BasketError::SlippageExceeded => "Slippage exceeded"@,
            BasketError::TooManyTokens => "Too many tokens"@,
            BasketError::TokenNotFound => "Token not found"@,
            BasketError::DuplicateToken => "Duplicate token"@,
            BasketError::ProgramPaused => "Program paused"@,
            BasketError::ReentrancyDetected => "Reentrancy detected"@,
            BasketError::InsufficientBalance => "Insufficient balance"@,
        }
    }

    /// The integer under which the host reports the error.
    #[verifier::when_used_as_spec(spec_code)]
    pub fn code(self) -> (code: u32)
        ensures
            code == self.spec_code(),
    {
        let index: u32 = match self {
            BasketError::Unauthorized => 0,
            BasketError::InsufficientDeposit => 1,
            BasketError::MathOverflow => 2,
            BasketError::WeightOverflow => 3,
            BasketError::InvalidTokenCount => 4,
            BasketError::InvalidAccountCount => 5,
            BasketError::InvalidTokenMint => 6,
            BasketError::InvalidTokenOwner => 7,
            BasketError::SlippageExceeded => 8,
            BasketError::TooManyTokens => 9,
            BasketError::TokenNotFound => 10,
            BasketError::DuplicateToken => 11,
            BasketError::ProgramPaused => 12,
            BasketError::ReentrancyDetected => 13,
            BasketError::InsufficientBalance => 14,
        };
        ERROR_CODE_OFFSET + index
    }

    /// The family the error belongs to.
    #[verifier::when_used_as_spec(spec_kind)]
    pub fn kind(self) -> (kind: ErrorKind)
        ensures
            kind == self.spec_kind(),
    {
        match self {
            BasketError::Unauthorized => ErrorKind::Authorization,
            BasketError::ProgramPaused | BasketError::ReentrancyDetected => ErrorKind::StateGuard,
            BasketError::TooManyTokens | BasketError::DuplicateToken | BasketError::TokenNotFound =>
                ErrorKind::Capacity,
            BasketError::InvalidTokenMint | BasketError::InvalidTokenOwner =>
                ErrorKind::ExternalValidation,
            BasketError::SlippageExceeded => ErrorKind::Market,
            BasketError::InsufficientDeposit
            | BasketError::MathOverflow
            | BasketError::WeightOverflow
            | BasketError::InvalidTokenCount
            | BasketError::InvalidAccountCount
            | BasketError::InsufficientBalance => ErrorKind::Accounting,
        }
    }

    /// The text that goes with the error.
    pub fn message(self) -> (text: &'static str)
        ensures
            text@ == self.spec_message(),
    {
        match self {
            BasketError::Unauthorized => "Unauthorized",
            BasketError::InsufficientDeposit => "Insufficient deposit",
            BasketError::MathOverflow => "Math overflow",
            BasketError::WeightOverflow => "Weight overflow",
            BasketError::InvalidTokenCount => "Invalid token count",
            BasketError::InvalidAccountCount => "Invalid account count",
            BasketError::InvalidTokenMint => "Invalid token mint",
            BasketError::InvalidTokenOwner => "Invalid token owner",
            BasketError::SlippageExceeded => "Slippage exceeded",
            BasketError::TooManyTokens => "Too many tokens",
            BasketError::TokenNotFound => "Token not found",
            BasketError::DuplicateToken => "Duplicate token",
            BasketError::ProgramPaused => "Program paused",
            BasketError::ReentrancyDetected => "Reentrancy detected",
            BasketError::InsufficientBalance => "Insufficient balance",
        }
    }
}

/// Every error has a code of its own.
pub proof fn lemma_codes_are_distinct(a: BasketError, b: BasketError)
    ensures
        a.spec_code() == b.spec_code() <==> a == b,
{
}

} // verus!
