use vstd::prelude::*;

verus! {

/// Reasons a ledger operation is refused.
#[derive(Clone, Copy, Debug, PartialEq, Eq, Structural)]
pub enum ContractError {
    NotASystemAccount,
    InvalidDepositor,
    FundAlreadyWithdrawn,
    RewardAlreadyWithdrawn,
    InvalidDepositToken,
    InvalidTimeRange,
    InvalidPdaAccount,
    InvalidAtaAccount,
    InvalidDepositAmount,
    InvalidPoolCreator,
    InvalidRewardToken,
    NoRewardPayroll,
    InvalidWithdrawnAddress,
    InvalidProgramAccount,
    TransferError,
    InvalidCollection,
}

/// The numeric code of each error, in declaration order from 0.
pub open spec fn error_code(e: ContractError) -> u32 {
    match e {
        ContractError::NotASystemAccount => 0,
        ContractError::InvalidDepositor => 1,
        ContractError::FundAlreadyWithdrawn => 2,
        ContractError::RewardAlreadyWithdrawn => 3,
        ContractError::InvalidDepositToken => 4,
        ContractError::InvalidTimeRange => 5,
        ContractError::InvalidPdaAccount => 6,
        ContractError::InvalidAtaAccount => 7,
        ContractError::InvalidDepositAmount => 8,
        ContractError::InvalidPoolCreator => 9,
        ContractError::InvalidRewardToken => 10,
        ContractError::NoRewardPayroll => 11,
        ContractError::InvalidWithdrawnAddress => 12,
        ContractError::InvalidProgramAccount => 13,
        ContractError::TransferError => 14,
        ContractError::InvalidCollection => 15,
    }
}

impl ContractError {
    /// The code under which the host reports this error.
    pub fn code(&self) -> (r: u32)
        ensures
            r == error_code(*self),
    {
        match self {
            ContractError::NotASystemAccount => 0,
            ContractError::InvalidDepositor => 1,
            ContractError::FundAlreadyWithdrawn => 2,
            ContractError::RewardAlreadyWithdrawn => 3,
            ContractError::InvalidDepositToken => 4,
            ContractError::InvalidTimeRange => 5,
            ContractError::InvalidPdaAccount => 6,
            ContractError::InvalidAtaAccount => 7,
            ContractError::InvalidDepositAmount => 8,
            ContractError::InvalidPoolCreator => 9,
            ContractError::InvalidRewardToken => 10,
            ContractError::NoRewardPayroll => 11,
            ContractError::InvalidWithdrawnAddress => 12,
            ContractError::InvalidProgramAccount => 13,
            ContractError::TransferError => 14,
            ContractError::InvalidCollection => 15,
        }
    }
}

/// Why an operation of the ledger failed: one of the ledger's own errors, or bytes that
/// do not hold what they should, or arithmetic that leaves `u64`.
#[derive(Clone, Copy, Debug, PartialEq, Eq, Structural)]
pub enum LedgerError {
    Contract(ContractError),
    /// The request payload does not have the layout of its operation.
    InvalidInstructionData,
    /// A record's bytes do not have the layout of its kind, or an epoch record is not
    /// at its derived address.
    InvalidAccountData,
    /// No program address exists for the seeds of a record.
    NoProgramAddress,
    /// An amount or a time left the range of `u64`.
    ArithmeticOverflow,
}

} // verus!
