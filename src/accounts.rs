use vstd::prelude::*;
use crate::address::Address;
use crate::state::EscrowState;

verus! {

/// A party named by an operation, and whether it signed the transaction.
#[derive(Clone, Copy, Debug)]
pub struct Identity {
    pub key: Address,
    pub is_signer: bool,
}

/// A token holding: `amount` units of asset `mint`, movable only by `owner`.
#[derive(Clone, Copy, Debug)]
pub struct TokenAccount {
    pub key: Address,
    pub mint: Address,
    pub owner: Address,
    pub amount: u64,
}

/// An account at a fixed address that may or may not exist yet.
#[derive(Clone, Copy, Debug)]
pub struct Slot<T> {
    pub key: Address,
    pub data: Option<T>,
}

/// The accounts that opening an escrow reads and writes.
#[derive(Clone, Copy, Debug)]
pub struct Initialize {
    pub program_id: Address,
    pub initializer: Identity,
    pub taker: Address,
    pub mint_a: Address,
    pub mint_b: Address,
    pub initializer_ata_a: TokenAccount,
    pub escrow_state: Slot<EscrowState>,
    pub vault: Slot<TokenAccount>,
}

/// The accounts that settling an escrow reads and writes.
#[derive(Clone, Copy, Debug)]
pub struct Exchange {
    pub program_id: Address,
    pub taker: Identity,
    pub initializer: Address,
    pub mint_a: Address,
    pub mint_b: Address,
    pub taker_ata_a: TokenAccount,
    pub taker_ata_b: TokenAccount,
    pub initializer_ata_b: TokenAccount,
    pub escrow_state: Slot<EscrowState>,
    pub vault: Slot<TokenAccount>,
}

/// The accounts that cancelling an escrow reads and writes.
#[derive(Clone, Copy, Debug)]
pub struct Cancel {
    pub program_id: Address,
    pub initializer: Identity,
    pub escrow_state: Slot<EscrowState>,
    pub vault: Slot<TokenAccount>,
    pub initializer_ata_a: TokenAccount,
}

} // verus!
