//! The persisted records, the accounts that carry them, and the error codes.

use vstd::prelude::*;
use crate::address::Address;

verus! {

/// Platform parameters, one record per authority.
#[derive(Clone, Copy, Debug)]
pub struct Config {
    pub bump: u8,
    pub authority: Address,
    pub is_active: bool,
    pub is_paused: bool,
    pub fee_bps: u16,
    pub treasury: Address,
    pub version: u8,
}

impl Config {
    /// Serialized size of the record, without the 8-byte discriminator.
    pub const LEN: usize = 1 + 32 + 1 + 1 + 2 + 32 + 1;
}

/// One deal between a client and a freelancer.
#[derive(Clone, Debug)]
pub struct EscrowAccount {
    pub client: Address,
    pub freelancer: Address,
    pub amount: u64,
    pub deadline: i64,
    pub is_submitted: bool,
    pub is_released: bool,
    pub metadata_ref: String,
    pub escrow_id: String,
    pub bump: u8,
}

impl EscrowAccount {
    /// Serialized size of the record, without the 8-byte discriminator.
    pub const LEN: usize = 32 + 32 + 8 + 8 + 1 + 1 + (4 + 256) + (4 + 32) + 1;

    /// Release is only reachable through submission, and a released record
    /// holds no attributed amount.
    pub open spec fn wf(&self) -> bool {
        self.is_released ==> (self.is_submitted && self.amount == 0)
    }
}

/// A ledger account that holds no program data: a party's wallet.
#[derive(Clone, Copy, Debug)]
pub struct Wallet {
    pub key: Address,
    pub lamports: u64,
}

/// An account owned by the program: its address, its balance, and its record,
/// `None` while no record has been written to it.
#[derive(Clone, Debug)]
pub struct Account<T> {
    pub key: Address,
    pub lamports: u64,
    pub data: Option<T>,
}

#[derive(Clone, Copy, Debug, PartialEq, Eq, Structural)]
pub enum ErrorCode {
    InvalidDeadline,
    InvalidAmount,
    UnauthorizedFreelancer,
    UnauthorizedClient,
    WorkNotSubmitted,
    AlreadySubmitted,
    AlreadyReleased,
    DeadlineNotPassed,
    MetadataTooLong,
    EscrowIdTooLong,
    /// The account is not the one that the record's seeds derive.
    ConstraintSeeds,
    /// A record already exists at the account.
    AccountAlreadyInitialized,
    /// No record exists at the account.
    AccountNotInitialized,
    /// The payer's balance is below the amount to move.
    InsufficientFunds,
    /// A balance would exceed the largest representable amount.
    BalanceOverflow,
}

impl ErrorCode {
    pub fn message(&self) -> &'static str {
        match self {
            ErrorCode::InvalidDeadline => "Deadline must be in the future",
            ErrorCode::InvalidAmount => "Amount must be greater than zero",
            ErrorCode::UnauthorizedFreelancer => "Only freelancer can submit work",
            ErrorCode::UnauthorizedClient => "Only client can approve release",
            ErrorCode::WorkNotSubmitted => "Freelancer must submit work first",
            ErrorCode::AlreadySubmitted => "Work already submitted",
            ErrorCode::AlreadyReleased => "Funds already released",
            ErrorCode::DeadlineNotPassed => "Cannot auto-release before deadline",
            ErrorCode::MetadataTooLong => "Metadata reference exceeds max length",
            ErrorCode::EscrowIdTooLong => "Escrow ID exceeds max length",
            ErrorCode::ConstraintSeeds => "Account is not derived from the expected seeds",
            ErrorCode::AccountAlreadyInitialized => "Account already holds a record",
            ErrorCode::AccountNotInitialized => "Account holds no record",
            ErrorCode::InsufficientFunds => "Insufficient funds for transfer",
            ErrorCode::BalanceOverflow => "Balance would overflow",
        }
    }
}

} // verus!
