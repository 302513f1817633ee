use anchor_lang::prelude::Pubkey;
use escrow_dapp::accounts::{Cancel, Exchange, Identity, Initialize, Slot, TokenAccount};
use escrow_dapp::address::{find_program_address, state_seed, vault_seed, Address};
use escrow_dapp::instructions::{cancel, exchange, initialize, initialize_with};
use escrow_dapp::state::{ErrorKind, EscrowError};

fn addr(n: u8) -> Address {
    Address::new([n; 32])
}

fn program() -> Address {
    addr(200)
}

fn pda(tag: &[u8], owner: &Address) -> Address {
    let (key, _) = Pubkey::find_program_address(&[tag, &owner.bytes], &Pubkey::new_from_array(program().bytes));
    Address::new(key.to_bytes())
}

const ALICE: u8 = 1;
const BOB: u8 = 2;
const MINT_A: u8 = 10;
const MINT_B: u8 = 11;

fn holding(key: u8, mint: u8, owner: u8, amount: u64) -> TokenAccount {
    TokenAccount { key: addr(key), mint: addr(mint), owner: addr(owner), amount }
}

fn init_ctx(initializer: u8, taker: u8, balance_a: u64) -> Initialize {
    let who = addr(initializer);
    Initialize {
        program_id: program(),
        initializer: Identity { key: who, is_signer: true },
        taker: addr(taker),
        mint_a: addr(MINT_A),
        mint_b: addr(MINT_B),
        initializer_ata_a: holding(100 + initializer, MINT_A, initializer, balance_a),
        escrow_state: Slot { key: pda(b"state", &who), data: None },
        vault: Slot { key: pda(b"vault", &who), data: None },
    }
}

fn exchange_ctx(opened: &Initialize, taker: u8, taker_a: u64, taker_b: u64, init_b: u64) -> Exchange {
    let initializer = opened.initializer.key.bytes[0];
    Exchange {
        program_id: program(),
        taker: Identity { key: addr(taker), is_signer: true },
        initializer: opened.initializer.key,
        mint_a: addr(MINT_A),
        mint_b: addr(MINT_B),
        taker_ata_a: holding(100 + taker, MINT_A, taker, taker_a),
        taker_ata_b: holding(150 + taker, MINT_B, taker, taker_b),
        initializer_ata_b: holding(150 + initializer, MINT_B, initializer, init_b),
        escrow_state: opened.escrow_state,
        vault: opened.vault,
    }
}

fn cancel_ctx(opened: &Initialize) -> Cancel {
    Cancel {
        program_id: program(),
        initializer: opened.initializer,
        escrow_state: opened.escrow_state,
        vault: opened.vault,
        initializer_ata_a: opened.initializer_ata_a,
    }
}

fn opened(amount_a: u64, amount_b: u64) -> Initialize {
    let mut ctx = init_ctx(ALICE, BOB, 1000);
    assert_eq!(initialize(&mut ctx, amount_a, amount_b), Ok(()));
    ctx
}

#[test]
fn derivation_matches_ledger() {
    let who = addr(ALICE);
    let (key, bump) = Pubkey::find_program_address(&[b"state", &who.bytes], &Pubkey::new_from_array(program().bytes));
    let got = find_program_address(&state_seed(), &who, &program()).unwrap();
    assert_eq!(got.0.bytes, key.to_bytes());
    assert_eq!(got.1, bump);
    assert_ne!(got.0.bytes, who.bytes);
    let vault = find_program_address(&vault_seed(), &who, &program()).unwrap();
    assert_ne!(vault.0.bytes, got.0.bytes);
    assert_eq!(&state_seed(), b"state");
    assert_eq!(&vault_seed(), b"vault");
}

#[test]
fn initialize_moves_offer_into_custody() {
    let ctx = opened(100, 50);
    let vault = ctx.vault.data.unwrap();
    assert_eq!(vault.amount, 100);
    assert_eq!(vault.mint.bytes, addr(MINT_A).bytes);
    assert_eq!(vault.owner.bytes, ctx.escrow_state.key.bytes);
    assert_eq!(ctx.initializer_ata_a.amount, 900);
    let rec = ctx.escrow_state.data.unwrap();
    assert_eq!(rec.initializer.bytes, addr(ALICE).bytes);
    assert_eq!(rec.taker.bytes, addr(BOB).bytes);
    assert_eq!(rec.initializer_amount, 100);
    assert_eq!(rec.taker_amount, 50);
    assert_eq!(rec.mint_a.bytes, addr(MINT_A).bytes);
    assert_eq!(rec.mint_b.bytes, addr(MINT_B).bytes);
}

#[test]
fn initialize_whole_balance() {
    let mut ctx = init_ctx(ALICE, BOB, 100);
    assert_eq!(initialize(&mut ctx, 100, u64::MAX), Ok(()));
    assert_eq!(ctx.initializer_ata_a.amount, 0);
    assert_eq!(ctx.vault.data.unwrap().amount, 100);
}

#[test]
fn reinitialize_fails_and_keeps_state() {
    let first = opened(100, 50);
    let mut again = first;
    assert_eq!(initialize(&mut again, 10, 5), Err(EscrowError::RecordAlreadyExists));
    assert_eq!(again.escrow_state.data.unwrap().initializer_amount, 100);
    assert_eq!(again.vault.data.unwrap().amount, 100);
    assert_eq!(again.initializer_ata_a.amount, 900);
}

#[test]
fn initialize_refusals() {
    let mut ctx = init_ctx(ALICE, BOB, 1000);
    ctx.initializer.is_signer = false;
    assert_eq!(initialize(&mut ctx, 1, 1), Err(EscrowError::MissingSignature));

    let mut ctx = init_ctx(ALICE, BOB, 1000);
    ctx.escrow_state.key = addr(77);
    assert_eq!(initialize(&mut ctx, 1, 1), Err(EscrowError::SeedsMismatch));

    let mut ctx = init_ctx(ALICE, BOB, 1000);
    ctx.vault.key = ctx.escrow_state.key;
    assert_eq!(initialize(&mut ctx, 1, 1), Err(EscrowError::SeedsMismatch));

    let mut ctx = init_ctx(ALICE, BOB, 1000);
    ctx.vault.data = Some(holding(9, MINT_A, 9, 0));
    assert_eq!(initialize(&mut ctx, 1, 1), Err(EscrowError::VaultAlreadyExists));

    let mut ctx = init_ctx(ALICE, BOB, 1000);
    ctx.initializer_ata_a.mint = addr(MINT_B);
    assert_eq!(initialize(&mut ctx, 1, 1), Err(EscrowError::MintMismatch));

    let mut ctx = init_ctx(ALICE, BOB, 1000);
    ctx.initializer_ata_a.owner = addr(BOB);
    assert_eq!(initialize(&mut ctx, 1, 1), Err(EscrowError::TokenOwnerMismatch));

    let mut ctx = init_ctx(ALICE, BOB, 1000);
    ctx.initializer_ata_a.key = ctx.vault.key;
    assert_eq!(initialize(&mut ctx, 1, 1), Err(EscrowError::DuplicateAccount));

    let mut ctx = init_ctx(ALICE, BOB, 99);
    let before = ctx;
    assert_eq!(initialize(&mut ctx, 100, 1), Err(EscrowError::InsufficientFunds));
    assert_eq!(ctx.initializer_ata_a.amount, before.initializer_ata_a.amount);
    assert!(ctx.escrow_state.data.is_none());
    assert!(ctx.vault.data.is_none());
}

#[test]
fn initialize_without_derivation_fails() {
    let mut ctx = init_ctx(ALICE, BOB, 1000);
    let vault = Some((ctx.vault.key, 255));
    assert_eq!(initialize_with(&mut ctx, 1, 1, None, vault), Err(EscrowError::AddressDerivationFailed));
    assert!(ctx.escrow_state.data.is_none());
}

#[test]
fn exchange_scenario() {
    let init = opened(100, 50);
    let mut ctx = exchange_ctx(&init, BOB, 0, 80, 0);
    assert_eq!(exchange(&mut ctx), Ok(()));
    assert_eq!(ctx.initializer_ata_b.amount, 50);
    assert_eq!(ctx.taker_ata_a.amount, 100);
    assert_eq!(ctx.taker_ata_b.amount, 30);
    assert!(ctx.escrow_state.data.is_none());
    assert!(ctx.vault.data.is_none());
    assert_eq!(init.initializer_ata_a.amount + ctx.taker_ata_a.amount, 1000);
    assert_eq!(ctx.taker_ata_b.amount + ctx.initializer_ata_b.amount, 80);
}

#[test]
fn cancel_scenario() {
    let init = opened(100, 50);
    let mut ctx = cancel_ctx(&init);
    assert_eq!(cancel(&mut ctx), Ok(()));
    assert_eq!(ctx.initializer_ata_a.amount, 1000);
    assert!(ctx.escrow_state.data.is_none());
    assert!(ctx.vault.data.is_none());
}

#[test]
fn exchange_by_other_taker_fails() {
    let init = opened(100, 50);
    let mut ctx = exchange_ctx(&init, 3, 0, 80, 0);
    assert_eq!(exchange(&mut ctx), Err(EscrowError::WrongTaker));
    assert_eq!(EscrowError::WrongTaker.kind(), ErrorKind::Authorization);
    assert_eq!(ctx.taker_ata_b.amount, 80);
    assert_eq!(ctx.initializer_ata_b.amount, 0);
    assert_eq!(ctx.vault.data.unwrap().amount, 100);
    assert!(ctx.escrow_state.data.is_some());

    let mut ctx = exchange_ctx(&init, BOB, 0, 80, 0);
    ctx.taker.is_signer = false;
    assert_eq!(exchange(&mut ctx), Err(EscrowError::MissingSignature));
    assert_eq!(EscrowError::MissingSignature.kind(), ErrorKind::Authorization);
}

#[test]
fn cancel_by_other_fails() {
    let init = opened(100, 50);
    let mut ctx = cancel_ctx(&init);
    ctx.initializer = Identity { key: addr(BOB), is_signer: true };
    assert_eq!(cancel(&mut ctx), Err(EscrowError::WrongInitializer));
    assert_eq!(EscrowError::WrongInitializer.kind(), ErrorKind::Authorization);
    assert_eq!(ctx.vault.data.unwrap().amount, 100);
    assert!(ctx.escrow_state.data.is_some());

    let mut ctx = cancel_ctx(&init);
    ctx.initializer.is_signer = false;
    assert_eq!(cancel(&mut ctx), Err(EscrowError::MissingSignature));
}

#[test]
fn exchange_then_cancel_fails() {
    let init = opened(100, 50);
    let mut ex = exchange_ctx(&init, BOB, 0, 80, 0);
    assert_eq!(exchange(&mut ex), Ok(()));
    let mut ctx = cancel_ctx(&init);
    ctx.escrow_state = ex.escrow_state;
    ctx.vault = ex.vault;
    assert_eq!(cancel(&mut ctx), Err(EscrowError::RecordMissing));
    assert_eq!(EscrowError::RecordMissing.kind(), ErrorKind::AccountShape);
    assert_eq!(exchange(&mut ex), Err(EscrowError::RecordMissing));
}

#[test]
fn cancel_then_exchange_fails() {
    let init = opened(100, 50);
    let mut ca = cancel_ctx(&init);
    assert_eq!(cancel(&mut ca), Ok(()));
    let mut ctx = exchange_ctx(&init, BOB, 0, 80, 0);
    ctx.escrow_state = ca.escrow_state;
    ctx.vault = ca.vault;
    assert_eq!(exchange(&mut ctx), Err(EscrowError::RecordMissing));
    assert_eq!(cancel(&mut ca), Err(EscrowError::RecordMissing));
}

#[test]
fn exchange_refusals() {
    let init = opened(100, 50);

    let mut ctx = exchange_ctx(&init, BOB, 0, 80, 0);
    ctx.initializer = addr(3);
    assert_eq!(exchange(&mut ctx), Err(EscrowError::WrongInitializer));

    let mut ctx = exchange_ctx(&init, BOB, 0, 80, 0);
    ctx.mint_b = addr(12);
    assert_eq!(exchange(&mut ctx), Err(EscrowError::MintMismatch));

    let mut ctx = exchange_ctx(&init, BOB, 0, 80, 0);
    ctx.vault.key = addr(78);
    assert_eq!(exchange(&mut ctx), Err(EscrowError::SeedsMismatch));

    let mut ctx = exchange_ctx(&init, BOB, 0, 80, 0);
    ctx.vault.data = None;
    assert_eq!(exchange(&mut ctx), Err(EscrowError::VaultMissing));

    let mut ctx = exchange_ctx(&init, BOB, 0, 80, 0);
    ctx.taker_ata_b.owner = addr(ALICE);
    assert_eq!(exchange(&mut ctx), Err(EscrowError::TokenOwnerMismatch));

    let mut ctx = exchange_ctx(&init, BOB, 0, 80, 0);
    ctx.initializer_ata_b.key = ctx.taker_ata_b.key;
    assert_eq!(exchange(&mut ctx), Err(EscrowError::DuplicateAccount));
    assert_eq!(EscrowError::DuplicateAccount.kind(), ErrorKind::AccountShape);

    let mut ctx = exchange_ctx(&init, BOB, 0, 49, 0);
    assert_eq!(exchange(&mut ctx), Err(EscrowError::InsufficientFunds));
    assert_eq!(EscrowError::InsufficientFunds.kind(), ErrorKind::Balance);
    assert_eq!(ctx.taker_ata_b.amount, 49);
    assert!(ctx.escrow_state.data.is_some());

    let mut ctx = exchange_ctx(&init, BOB, 0, 80, u64::MAX - 49);
    assert_eq!(exchange(&mut ctx), Err(EscrowError::Overflow));
    assert_eq!(EscrowError::Overflow.kind(), ErrorKind::Balance);

    let mut ctx = exchange_ctx(&init, BOB, u64::MAX - 99, 80, 0);
    assert_eq!(exchange(&mut ctx), Err(EscrowError::Overflow));

    let mut ctx = exchange_ctx(&init, BOB, 0, 80, 0);
    let mut extra = ctx.vault.data.unwrap();
    extra.amount = 101;
    ctx.vault.data = Some(extra);
    assert_eq!(exchange(&mut ctx), Err(EscrowError::VaultNotEmpty));

    let mut ctx = exchange_ctx(&init, BOB, 0, 80, 0);
    extra.amount = 99;
    ctx.vault.data = Some(extra);
    assert_eq!(exchange(&mut ctx), Err(EscrowError::InsufficientFunds));
}

#[test]
fn cancel_refusals() {
    let init = opened(100, 50);

    let mut ctx = cancel_ctx(&init);
    ctx.initializer_ata_a.mint = addr(MINT_B);
    assert_eq!(cancel(&mut ctx), Err(EscrowError::MintMismatch));

    let mut ctx = cancel_ctx(&init);
    ctx.escrow_state.key = addr(79);
    assert_eq!(cancel(&mut ctx), Err(EscrowError::SeedsMismatch));

    let mut ctx = cancel_ctx(&init);
    ctx.vault.data = None;
    assert_eq!(cancel(&mut ctx), Err(EscrowError::VaultMissing));

    let mut ctx = cancel_ctx(&init);
    ctx.initializer_ata_a.key = ctx.vault.key;
    assert_eq!(cancel(&mut ctx), Err(EscrowError::DuplicateAccount));

    let mut ctx = cancel_ctx(&init);
    ctx.initializer_ata_a.amount = u64::MAX - 99;
    assert_eq!(cancel(&mut ctx), Err(EscrowError::Overflow));
    assert_eq!(ctx.vault.data.unwrap().amount, 100);
}

#[test]
fn cancel_returns_whole_custody_balance() {
    let init = opened(100, 50);
    let mut ctx = cancel_ctx(&init);
    let mut held = ctx.vault.data.unwrap();
    held.amount = 130;
    ctx.vault.data = Some(held);
    assert_eq!(cancel(&mut ctx), Ok(()));
    assert_eq!(ctx.initializer_ata_a.amount, 1030);
}

#[test]
fn initialize_refuses_zero_amounts() {
    let mut ctx = init_ctx(ALICE, BOB, 1000);
    assert_eq!(initialize(&mut ctx, 0, 50), Err(EscrowError::InvalidAmount));
    assert_eq!(initialize(&mut ctx, 100, 0), Err(EscrowError::InvalidAmount));
    assert_eq!(EscrowError::InvalidAmount.kind(), ErrorKind::AccountShape);
    assert_eq!(ctx.initializer_ata_a.amount, 1000);
    assert!(ctx.escrow_state.data.is_none());
    assert!(ctx.vault.data.is_none());
}

#[test]
fn same_asset_exchange_nets_on_one_holding() {
    let mut init = init_ctx(ALICE, BOB, 1000);
    init.mint_b = addr(MINT_A);
    assert_eq!(initialize(&mut init, 100, 50), Ok(()));
    let mut ctx = exchange_ctx(&init, BOB, 80, 80, 0);
    ctx.mint_b = addr(MINT_A);
    ctx.taker_ata_b = ctx.taker_ata_a;
    ctx.initializer_ata_b = holding(150 + ALICE, MINT_A, ALICE, 0);
    assert_eq!(exchange(&mut ctx), Ok(()));
    assert_eq!(ctx.taker_ata_a.amount, 130);
    assert_eq!(ctx.taker_ata_b.amount, 130);
    assert_eq!(ctx.initializer_ata_b.amount, 50);
    assert!(ctx.escrow_state.data.is_none());
    assert!(ctx.vault.data.is_none());
}

#[test]
fn self_exchange_pays_itself() {
    let init = {
        let mut c = init_ctx(ALICE, ALICE, 1000);
        assert_eq!(initialize(&mut c, 100, 50), Ok(()));
        c
    };
    let mut ctx = exchange_ctx(&init, ALICE, 900, 80, 80);
    assert_eq!(ctx.taker_ata_b.key.bytes, ctx.initializer_ata_b.key.bytes);
    assert_eq!(exchange(&mut ctx), Ok(()));
    assert_eq!(ctx.taker_ata_b.amount, 80);
    assert_eq!(ctx.initializer_ata_b.amount, 80);
    assert_eq!(ctx.taker_ata_a.amount, 1000);
    assert!(ctx.escrow_state.data.is_none());
}

#[test]
fn exchange_refuses_custody_as_a_holding() {
    let init = opened(100, 50);
    let mut ctx = exchange_ctx(&init, BOB, 0, 80, 0);
    ctx.taker_ata_a.key = ctx.vault.key;
    assert_eq!(exchange(&mut ctx), Err(EscrowError::DuplicateAccount));
}
