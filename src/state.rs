use vstd::prelude::*;
use crate::address::Address;

verus! {

/// One pending swap: who offers what to whom, and for how much.
#[derive(Clone, Copy, Debug)]
pub struct EscrowState {
    pub initializer: Address,
    pub taker: Address,
    pub initializer_amount: u64,
    pub taker_amount: u64,
    pub mint_a: Address,
    pub mint_b: Address,
}

/// The three families of failure.
#[derive(Clone, Copy, Debug, PartialEq, Eq, Structural)]
pub enum ErrorKind {
    /// A signature is missing or an identity does not match the record.
    Authorization,
    /// An account is at the wrong address, of the wrong asset, or in the wrong state.
    AccountShape,
    /// A transfer would overdraw or overflow a holding.
    Balance,
}

/// Why an operation was refused. Every refusal leaves all accounts unchanged.
#[derive(Clone, Copy, Debug, PartialEq, Eq, Structural)]
pub enum EscrowError {
    MissingSignature,
    WrongTaker,
    WrongInitializer,
    RecordAlreadyExists,
    RecordMissing,
    VaultAlreadyExists,
    VaultMissing,
    AddressDerivationFailed,
    SeedsMismatch,
    MintMismatch,
    TokenOwnerMismatch,
    /// One account is named in two roles that cannot share it, or one
    /// address is given with two different contents.
    DuplicateAccount,
    /// An offered or requested amount of zero.
    InvalidAmount,
    VaultNotEmpty,
    InsufficientFunds,
    Overflow,
}

pub open spec fn kind_of(e: EscrowError) -> ErrorKind {
    match e {
        EscrowError::MissingSignature | EscrowError::WrongTaker | EscrowError::WrongInitializer => ErrorKind::Authorization,
        EscrowError::InsufficientFunds | EscrowError::Overflow => ErrorKind::Balance,
        _ => ErrorKind::AccountShape,
    }
}

impl EscrowError {
    pub fn kind(&self) -> (r: ErrorKind)
        ensures
            r == kind_of(*self),
    {
        match self {
            EscrowError::MissingSignature | EscrowError::WrongTaker | EscrowError::WrongInitializer => ErrorKind::Authorization,
            EscrowError::InsufficientFunds | EscrowError::Overflow => ErrorKind::Balance,
            _ => ErrorKind::AccountShape,
        }
    }
}

} // verus!
