use vstd::prelude::*;
use crate::accounts::{Cancel, Exchange, Initialize, Slot, TokenAccount};
use crate::address::{
    derived_view, find_program_address, program_address_of, state_seed, state_tag, vault_seed,
    vault_tag, Address,
};
use crate::state::{EscrowError, EscrowState};

verus! {

/// What an operation did: on an error `e`, it returned `e` and changed nothing;
/// otherwise it succeeded and left the accounts as `effect`.
pub open spec fn settles<C>(r: Result<(), EscrowError>, before: C, after: C, err: Option<EscrowError>, effect: C) -> bool {
    match err {
        Some(e) => r == Err::<(), EscrowError>(e) && after == before,
        None => r is Ok && after == effect,
    }
}

/// The derived address of `owner`'s escrow record under `program`.
pub open spec fn state_address(owner: Address, program: Address) -> Option<(Seq<u8>, u8)> {
    program_address_of(state_tag(), owner.bytes@, program.bytes@)
}

/// The derived address of `owner`'s custody holding under `program`.
pub open spec fn vault_address(owner: Address, program: Address) -> Option<(Seq<u8>, u8)> {
    program_address_of(vault_tag(), owner.bytes@, program.bytes@)
}

/// Why `key` is not the derived address `d`, if it is not.
pub open spec fn seeds_error(key: Address, d: Option<(Seq<u8>, u8)>) -> Option<EscrowError> {
    match d {
        None => Some(EscrowError::AddressDerivationFailed),
        Some((a, _)) => if key.bytes@ == a { None } else { Some(EscrowError::SeedsMismatch) },
    }
}

/// Why `acct` is not a holding of asset `mint` controlled by `owner`, if it is not.
pub open spec fn holding_error(acct: TokenAccount, mint: Address, owner: Address) -> Option<EscrowError> {
    if acct.mint != mint {
        Some(EscrowError::MintMismatch)
    } else if acct.owner != owner {
        Some(EscrowError::TokenOwnerMismatch)
    } else {
        None
    }
}

fn check_seeds(key: &Address, d: &Option<(Address, u8)>) -> (r: Option<EscrowError>)
    ensures
        r == seeds_error(*key, derived_view(*d)),
{
    match d {
        None => Some(EscrowError::AddressDerivationFailed),
        Some((a, _)) => if key.same(a) { None } else { Some(EscrowError::SeedsMismatch) },
    }
}

fn check_holding(acct: &TokenAccount, mint: &Address, owner: &Address) -> (r: Option<EscrowError>)
    ensures
        r == holding_error(*acct, *mint, *owner),
{
    if !acct.mint.same(mint) {
        Some(EscrowError::MintMismatch)
    } else if !acct.owner.same(owner) {
        Some(EscrowError::TokenOwnerMismatch)
    } else {
        None
    }
}

// ---------------------------------------------------------------- initialize

/// The first reason, in order of checking, why opening an escrow is refused,
/// given the derived record address `state_pda` and custody address `vault_pda`.
pub open spec fn initialize_error(
    ctx: Initialize,
    initializer_amount: u64,
    taker_amount: u64,
    state_pda: Option<(Seq<u8>, u8)>,
    vault_pda: Option<(Seq<u8>, u8)>,
) -> Option<EscrowError> {
    if ctx.escrow_state.data is Some {
        Some(EscrowError::RecordAlreadyExists)
    } else if !ctx.initializer.is_signer {
        Some(EscrowError::MissingSignature)
    } else if seeds_error(ctx.escrow_state.key, state_pda) is Some {
        seeds_error(ctx.escrow_state.key, state_pda)
    } else if seeds_error(ctx.vault.key, vault_pda) is Some {
        seeds_error(ctx.vault.key, vault_pda)
    } else if ctx.vault.data is Some {
        Some(EscrowError::VaultAlreadyExists)
    } else if holding_error(ctx.initializer_ata_a, ctx.mint_a, ctx.initializer.key) is Some {
        holding_error(ctx.initializer_ata_a, ctx.mint_a, ctx.initializer.key)
    } else if ctx.initializer_ata_a.key == ctx.vault.key {
        Some(EscrowError::DuplicateAccount)
    } else if initializer_amount == 0 || taker_amount == 0 {
        Some(EscrowError::InvalidAmount)
    } else if ctx.initializer_ata_a.amount < initializer_amount {
        Some(EscrowError::InsufficientFunds)
    } else {
        None
    }
}

/// The record that opening an escrow writes.
pub open spec fn new_record(ctx: Initialize, initializer_amount: u64, taker_amount: u64) -> EscrowState {
    EscrowState {
        initializer: ctx.initializer.key,
        taker: ctx.taker,
        initializer_amount,
        taker_amount,
        mint_a: ctx.mint_a,
        mint_b: ctx.mint_b,
    }
}

/// The accounts after a successful opening: the record is written, the
/// custody holding is created under the record's authority, and the offered
/// amount has moved into it from the initializer's holding.
pub open spec fn initialize_effect(ctx: Initialize, initializer_amount: u64, taker_amount: u64) -> Initialize {
    Initialize {
        initializer_ata_a: TokenAccount {
            amount: (ctx.initializer_ata_a.amount - initializer_amount) as u64,
            ..ctx.initializer_ata_a
        },
        escrow_state: Slot {
            key: ctx.escrow_state.key,
            data: Some(new_record(ctx, initializer_amount, taker_amount)),
        },
        vault: Slot {
            key: ctx.vault.key,
            data: Some(
                TokenAccount {
                    key: ctx.vault.key,
                    mint: ctx.mint_a,
                    owner: ctx.escrow_state.key,
                    amount: initializer_amount,
                },
            ),
        },
        ..ctx
    }
}

/// Opens an escrow with the derived addresses already computed.
pub fn initialize_with(
    ctx: &mut Initialize,
    initializer_amount: u64,
    taker_amount: u64,
    state_pda: Option<(Address, u8)>,
    vault_pda: Option<(Address, u8)>,
) -> (r: Result<(), EscrowError>)
    ensures
        settles(
            r,
            *old(ctx),
            *final(ctx),
            initialize_error(*old(ctx), initializer_amount, taker_amount, derived_view(state_pda), derived_view(vault_pda)),
            initialize_effect(*old(ctx), initializer_amount, taker_amount),
        ),
{
    if ctx.escrow_state.data.is_some() {
        return Err(EscrowError::RecordAlreadyExists);
    }
    if !ctx.initializer.is_signer {
        return Err(EscrowError::MissingSignature);
    }
    if let Some(e) = check_seeds(&ctx.escrow_state.key, &state_pda) {
        return Err(e);
    }
    if let Some(e) = check_seeds(&ctx.vault.key, &vault_pda) {
        return Err(e);
    }
    if ctx.vault.data.is_some() {
        return Err(EscrowError::VaultAlreadyExists);
    }
    if let Some(e) = check_holding(&ctx.initializer_ata_a, &ctx.mint_a, &ctx.initializer.key) {
        return Err(e);
    }
    if ctx.initializer_ata_a.key.same(&ctx.vault.key) {
        return Err(EscrowError::DuplicateAccount);
    }
    if initializer_amount == 0 || taker_amount == 0 {
        return Err(EscrowError::InvalidAmount);
    }
    if ctx.initializer_ata_a.amount < initializer_amount {
        return Err(EscrowError::InsufficientFunds);
    }
    let record = EscrowState {
        initializer: ctx.initializer.key,
        taker: ctx.taker,
        initializer_amount,
        taker_amount,
        mint_a: ctx.mint_a,
        mint_b: ctx.mint_b,
    };
    ctx.escrow_state.data = Some(record);
    ctx.vault.data = Some(
        TokenAccount {
            key: ctx.vault.key,
            mint: ctx.mint_a,
            owner: ctx.escrow_state.key,
            amount: initializer_amount,
        },
    );
    ctx.initializer_ata_a.amount = ctx.initializer_ata_a.amount - initializer_amount;
    Ok(())
}

/// Opens an escrow: records the swap at the initializer's derived record
/// address and moves `initializer_amount` of asset A into custody at the
/// derived custody address. On any error nothing changes.
pub fn initialize(ctx: &mut Initialize, initializer_amount: u64, taker_amount: u64) -> (r: Result<(), EscrowError>)
    ensures
        settles(
            r,
            *old(ctx),
            *final(ctx),
            initialize_error(
                *old(ctx),
                initializer_amount,
                taker_amount,
                state_address(old(ctx).initializer.key, old(ctx).program_id),
                vault_address(old(ctx).initializer.key, old(ctx).program_id),
            ),
            initialize_effect(*old(ctx), initializer_amount, taker_amount),
        ),
{
    let state_pda = find_program_address(&state_seed(), &ctx.initializer.key, &ctx.program_id);
    let vault_pda = find_program_address(&vault_seed(), &ctx.initializer.key, &ctx.program_id);
    initialize_with(ctx, initializer_amount, taker_amount, state_pda, vault_pda)
}

// ------------------------------------------------------------------ exchange

/// Two holdings given at one address are one account, so they agree in full.
pub open spec fn consistent(x: TokenAccount, y: TokenAccount) -> bool {
    x.key == y.key ==> x == y
}

/// The three holdings a settlement names may share accounts (a same-asset
/// swap, or a taker trading with itself), but never the custody holding, and
/// holdings at one address agree.
pub open spec fn exchange_accounts_error(ctx: Exchange) -> Option<EscrowError> {
    if ctx.taker_ata_a.key == ctx.vault.key || ctx.taker_ata_b.key == ctx.vault.key
        || ctx.initializer_ata_b.key == ctx.vault.key {
        Some(EscrowError::DuplicateAccount)
    } else if !(consistent(ctx.taker_ata_a, ctx.taker_ata_b) && consistent(ctx.taker_ata_a, ctx.initializer_ata_b)
        && consistent(ctx.taker_ata_b, ctx.initializer_ata_b)) {
        Some(EscrowError::DuplicateAccount)
    } else {
        None
    }
}

/// Holding `h` after `amount` moved from `src` to `dst`. A transfer from an
/// account to itself changes nothing.
pub open spec fn after_payment(h: TokenAccount, src: TokenAccount, dst: TokenAccount, amount: u64) -> TokenAccount {
    if src.key == dst.key {
        h
    } else if h.key == src.key {
        TokenAccount { amount: (h.amount - amount) as u64, ..h }
    } else if h.key == dst.key {
        TokenAccount { amount: (h.amount + amount) as u64, ..h }
    } else {
        h
    }
}

/// Holding `h` after `amount` was paid into the account at `dst`.
pub open spec fn after_credit(h: TokenAccount, dst: Address, amount: u64) -> TokenAccount {
    if h.key == dst {
        TokenAccount { amount: (h.amount + amount) as u64, ..h }
    } else {
        h
    }
}

/// A holding after the taker has paid the requested amount to the initializer.
pub open spec fn after_taker_pays(ctx: Exchange, h: TokenAccount) -> TokenAccount {
    after_payment(h, ctx.taker_ata_b, ctx.initializer_ata_b, ctx.escrow_state.data->Some_0.taker_amount)
}

/// A holding after both payments of a settlement: first the taker pays the
/// initializer, then custody pays the taker.
pub open spec fn settled(ctx: Exchange, h: TokenAccount) -> TokenAccount {
    after_credit(
        after_taker_pays(ctx, h),
        ctx.taker_ata_a.key,
        ctx.escrow_state.data->Some_0.initializer_amount,
    )
}

/// The first reason, in order of checking, why a settlement is refused.
pub open spec fn exchange_error(
    ctx: Exchange,
    state_pda: Option<(Seq<u8>, u8)>,
    vault_pda: Option<(Seq<u8>, u8)>,
) -> Option<EscrowError> {
    let rec = ctx.escrow_state.data->Some_0;
    let held = ctx.vault.data->Some_0;
    if ctx.escrow_state.data is None {
        Some(EscrowError::RecordMissing)
    } else if !ctx.taker.is_signer {
        Some(EscrowError::MissingSignature)
    } else if rec.taker != ctx.taker.key {
        Some(EscrowError::WrongTaker)
    } else if rec.initializer != ctx.initializer {
        Some(EscrowError::WrongInitializer)
    } else if rec.mint_a != ctx.mint_a || rec.mint_b != ctx.mint_b {
        Some(EscrowError::MintMismatch)
    } else if seeds_error(ctx.escrow_state.key, state_pda) is Some {
        seeds_error(ctx.escrow_state.key, state_pda)
    } else if seeds_error(ctx.vault.key, vault_pda) is Some {
        seeds_error(ctx.vault.key, vault_pda)
    } else if ctx.vault.data is None {
        Some(EscrowError::VaultMissing)
    } else if holding_error(ctx.taker_ata_a, ctx.mint_a, ctx.taker.key) is Some {
        holding_error(ctx.taker_ata_a, ctx.mint_a, ctx.taker.key)
    } else if holding_error(ctx.taker_ata_b, ctx.mint_b, ctx.taker.key) is Some {
        holding_error(ctx.taker_ata_b, ctx.mint_b, ctx.taker.key)
    } else if holding_error(ctx.initializer_ata_b, ctx.mint_b, ctx.initializer) is Some {
        holding_error(ctx.initializer_ata_b, ctx.mint_b, ctx.initializer)
    } else if holding_error(held, ctx.mint_a, ctx.escrow_state.key) is Some {
        holding_error(held, ctx.mint_a, ctx.escrow_state.key)
    } else if exchange_accounts_error(ctx) is Some {
        exchange_accounts_error(ctx)
    } else if ctx.taker_ata_b.amount < rec.taker_amount {
        Some(EscrowError::InsufficientFunds)
    } else if ctx.taker_ata_b.key != ctx.initializer_ata_b.key
        && ctx.initializer_ata_b.amount + rec.taker_amount > u64::MAX {
        Some(EscrowError::Overflow)
    } else if held.amount < rec.initializer_amount {
        Some(EscrowError::InsufficientFunds)
    } else if after_taker_pays(ctx, ctx.taker_ata_a).amount + rec.initializer_amount > u64::MAX {
        Some(EscrowError::Overflow)
    } else if held.amount != rec.initializer_amount {
        Some(EscrowError::VaultNotEmpty)
    } else {
        None
    }
}

/// The accounts after a settlement: the taker has paid the requested amount
/// of asset B to the initializer, the custody holding has paid the offered
/// amount of asset A to the taker, and the holding and the record are gone.
/// A holding that plays two roles receives both of its changes.
pub open spec fn exchange_effect(ctx: Exchange) -> Exchange {
    Exchange {
        taker_ata_a: settled(ctx, ctx.taker_ata_a),
        taker_ata_b: settled(ctx, ctx.taker_ata_b),
        initializer_ata_b: settled(ctx, ctx.initializer_ata_b),
        escrow_state: Slot { key: ctx.escrow_state.key, data: None },
        vault: Slot { key: ctx.vault.key, data: None },
        ..ctx
    }
}

fn same_holding(x: &TokenAccount, y: &TokenAccount) -> (r: bool)
    ensures
        r == (*x == *y),
{
    x.key.same(&y.key) && x.mint.same(&y.mint) && x.owner.same(&y.owner) && x.amount == y.amount
}

fn check_consistent(x: &TokenAccount, y: &TokenAccount) -> (r: bool)
    ensures
        r == consistent(*x, *y),
{
    !x.key.same(&y.key) || same_holding(x, y)
}

fn with_amount(h: &TokenAccount, amount: u64) -> (r: TokenAccount)
    ensures
        r == (TokenAccount { amount, ..*h }),
{
    TokenAccount { key: h.key, mint: h.mint, owner: h.owner, amount }
}

fn pay(h: &TokenAccount, src: &TokenAccount, dst: &TokenAccount, amount: u64) -> (r: TokenAccount)
    requires
        consistent(*h, *src),
        consistent(*h, *dst),
        src.amount >= amount,
        src.key != dst.key ==> dst.amount + amount <= u64::MAX,
    ensures
        r == after_payment(*h, *src, *dst, amount),
{
    if src.key.same(&dst.key) {
        *h
    } else if h.key.same(&src.key) {
        with_amount(h, h.amount - amount)
    } else if h.key.same(&dst.key) {
        with_amount(h, h.amount + amount)
    } else {
        *h
    }
}

fn credit(h: &TokenAccount, dst: &TokenAccount, amount: u64) -> (r: TokenAccount)
    requires
        consistent(*h, *dst),
        dst.amount + amount <= u64::MAX,
    ensures
        r == after_credit(*h, dst.key, amount),
{
    if h.key.same(&dst.key) {
        with_amount(h, h.amount + amount)
    } else {
        *h
    }
}

/// Settles an escrow with the derived addresses already computed.
pub fn exchange_with(
    ctx: &mut Exchange,
    state_pda: Option<(Address, u8)>,
    vault_pda: Option<(Address, u8)>,
) -> (r: Result<(), EscrowError>)
    ensures
        settles(
            r,
            *old(ctx),
            *final(ctx),
            exchange_error(*old(ctx), derived_view(state_pda), derived_view(vault_pda)),
            exchange_effect(*old(ctx)),
        ),
{
    let rec = match ctx.escrow_state.data {
        Some(rec) => rec,
        None => return Err(EscrowError::RecordMissing),
    };
    if !ctx.taker.is_signer {
        return Err(EscrowError::MissingSignature);
    }
    if !rec.taker.same(&ctx.taker.key) {
        return Err(EscrowError::WrongTaker);
    }
    if !rec.initializer.same(&ctx.initializer) {
        return Err(EscrowError::WrongInitializer);
    }
    if !rec.mint_a.same(&ctx.mint_a) || !rec.mint_b.same(&ctx.mint_b) {
        return Err(EscrowError::MintMismatch);
    }
    if let Some(e) = check_seeds(&ctx.escrow_state.key, &state_pda) {
        return Err(e);
    }
    if let Some(e) = check_seeds(&ctx.vault.key, &vault_pda) {
        return Err(e);
    }
    let held = match ctx.vault.data {
        Some(held) => held,
        None => return Err(EscrowError::VaultMissing),
    };
    if let Some(e) = check_holding(&ctx.taker_ata_a, &ctx.mint_a, &ctx.taker.key) {
        return Err(e);
    }
    if let Some(e) = check_holding(&ctx.taker_ata_b, &ctx.mint_b, &ctx.taker.key) {
        return Err(e);
    }
    if let Some(e) = check_holding(&ctx.initializer_ata_b, &ctx.mint_b, &ctx.initializer) {
        return Err(e);
    }
    if let Some(e) = check_holding(&held, &ctx.mint_a, &ctx.escrow_state.key) {
        return Err(e);
    }
    if ctx.taker_ata_a.key.same(&ctx.vault.key) || ctx.taker_ata_b.key.same(&ctx.vault.key)
        || ctx.initializer_ata_b.key.same(&ctx.vault.key)
    {
        return Err(EscrowError::DuplicateAccount);
    }
    if !(check_consistent(&ctx.taker_ata_a, &ctx.taker_ata_b) && check_consistent(&ctx.taker_ata_a, &ctx.initializer_ata_b)
        && check_consistent(&ctx.taker_ata_b, &ctx.initializer_ata_b))
    {
        return Err(EscrowError::DuplicateAccount);
    }
    if ctx.taker_ata_b.amount < rec.taker_amount {
        return Err(EscrowError::InsufficientFunds);
    }
    if !ctx.taker_ata_b.key.same(&ctx.initializer_ata_b.key)
        && ctx.initializer_ata_b.amount > u64::MAX - rec.taker_amount
    {
        return Err(EscrowError::Overflow);
    }
    if held.amount < rec.initializer_amount {
        return Err(EscrowError::InsufficientFunds);
    }
    let a1 = pay(&ctx.taker_ata_a, &ctx.taker_ata_b, &ctx.initializer_ata_b, rec.taker_amount);
    if a1.amount > u64::MAX - rec.initializer_amount {
        return Err(EscrowError::Overflow);
    }
    if held.amount != rec.initializer_amount {
        return Err(EscrowError::VaultNotEmpty);
    }
    let b1 = pay(&ctx.taker_ata_b, &ctx.taker_ata_b, &ctx.initializer_ata_b, rec.taker_amount);
    let i1 = pay(&ctx.initializer_ata_b, &ctx.taker_ata_b, &ctx.initializer_ata_b, rec.taker_amount);
    ctx.taker_ata_b = credit(&b1, &a1, rec.initializer_amount);
    ctx.initializer_ata_b = credit(&i1, &a1, rec.initializer_amount);
    ctx.taker_ata_a = credit(&a1, &a1, rec.initializer_amount);
    ctx.vault.data = None;
    ctx.escrow_state.data = None;
    Ok(())
}

/// Settles an escrow: the recorded taker pays the requested amount and
/// receives the custodied amount, and the custody holding and the record are
/// closed, all at once. On any error nothing changes.
pub fn exchange(ctx: &mut Exchange) -> (r: Result<(), EscrowError>)
    ensures
        settles(
            r,
            *old(ctx),
            *final(ctx),
            exchange_error(
                *old(ctx),
                state_address(old(ctx).initializer, old(ctx).program_id),
                vault_address(old(ctx).initializer, old(ctx).program_id),
            ),
            exchange_effect(*old(ctx)),
        ),
{
    let state_pda = find_program_address(&state_seed(), &ctx.initializer, &ctx.program_id);
    let vault_pda = find_program_address(&vault_seed(), &ctx.initializer, &ctx.program_id);
    exchange_with(ctx, state_pda, vault_pda)
}

// -------------------------------------------------------------------- cancel

/// The first reason, in order of checking, why a cancellation is refused.
pub open spec fn cancel_error(
    ctx: Cancel,
    state_pda: Option<(Seq<u8>, u8)>,
    vault_pda: Option<(Seq<u8>, u8)>,
) -> Option<EscrowError> {
    let rec = ctx.escrow_state.data->Some_0;
    let held = ctx.vault.data->Some_0;
    if ctx.escrow_state.data is None {
        Some(EscrowError::RecordMissing)
    } else if !ctx.initializer.is_signer {
        Some(EscrowError::MissingSignature)
    } else if rec.initializer != ctx.initializer.key {
        Some(EscrowError::WrongInitializer)
    } else if seeds_error(ctx.escrow_state.key, state_pda) is Some {
        seeds_error(ctx.escrow_state.key, state_pda)
    } else if seeds_error(ctx.vault.key, vault_pda) is Some {
        seeds_error(ctx.vault.key, vault_pda)
    } else if ctx.vault.data is None {
        Some(EscrowError::VaultMissing)
    } else if holding_error(ctx.initializer_ata_a, rec.mint_a, ctx.initializer.key) is Some {
        holding_error(ctx.initializer_ata_a, rec.mint_a, ctx.initializer.key)
    } else if holding_error(held, rec.mint_a, ctx.escrow_state.key) is Some {
        holding_error(held, rec.mint_a, ctx.escrow_state.key)
    } else if ctx.initializer_ata_a.key == ctx.vault.key {
        Some(EscrowError::DuplicateAccount)
    } else if ctx.initializer_ata_a.amount + held.amount > u64::MAX {
        Some(EscrowError::Overflow)
    } else {
        None
    }
}

/// The accounts after a cancellation: the whole custody balance is back in
/// the initializer's holding, and the custody holding and the record are gone.
pub open spec fn cancel_effect(ctx: Cancel) -> Cancel {
    let held = ctx.vault.data->Some_0;
    Cancel {
        initializer_ata_a: TokenAccount {
            amount: (ctx.initializer_ata_a.amount + held.amount) as u64,
            ..ctx.initializer_ata_a
        },
        escrow_state: Slot { key: ctx.escrow_state.key, data: None },
        vault: Slot { key: ctx.vault.key, data: None },
        ..ctx
    }
}

/// Cancels an escrow with the derived addresses already computed.
pub fn cancel_with(
    ctx: &mut Cancel,
    state_pda: Option<(Address, u8)>,
    vault_pda: Option<(Address, u8)>,
) -> (r: Result<(), EscrowError>)
    ensures
        settles(
            r,
            *old(ctx),
            *final(ctx),
            cancel_error(*old(ctx), derived_view(state_pda), derived_view(vault_pda)),
            cancel_effect(*old(ctx)),
        ),
{
    let rec = match ctx.escrow_state.data {
        Some(rec) => rec,
        None => return Err(EscrowError::RecordMissing),
    };
    if !ctx.initializer.is_signer {
        return Err(EscrowError::MissingSignature);
    }
    if !rec.initializer.same(&ctx.initializer.key) {
        return Err(EscrowError::WrongInitializer);
    }
    if let Some(e) = check_seeds(&ctx.escrow_state.key, &state_pda) {
        return Err(e);
    }
    if let Some(e) = check_seeds(&ctx.vault.key, &vault_pda) {
        return Err(e);
    }
    let held = match ctx.vault.data {
        Some(held) => held,
        None => return Err(EscrowError::VaultMissing),
    };
    if let Some(e) = check_holding(&ctx.initializer_ata_a, &rec.mint_a, &ctx.initializer.key) {
        return Err(e);
    }
    if let Some(e) = check_holding(&held, &rec.mint_a, &ctx.escrow_state.key) {
        return Err(e);
    }
    if ctx.initializer_ata_a.key.same(&ctx.vault.key) {
        return Err(EscrowError::DuplicateAccount);
    }
    if ctx.initializer_ata_a.amount > u64::MAX - held.amount {
        return Err(EscrowError::Overflow);
    }
    ctx.initializer_ata_a.amount = ctx.initializer_ata_a.amount + held.amount;
    ctx.vault.data = None;
    ctx.escrow_state.data = None;
    Ok(())
}

/// Cancels an escrow: the whole custody balance goes back to the
/// initializer, and the custody holding and the record are closed. Only the
/// recorded initializer may cancel. On any error nothing changes.
pub fn cancel(ctx: &mut Cancel) -> (r: Result<(), EscrowError>)
    ensures
        settles(
            r,
            *old(ctx),
            *final(ctx),
            cancel_error(
                *old(ctx),
                state_address(old(ctx).initializer.key, old(ctx).program_id),
                vault_address(old(ctx).initializer.key, old(ctx).program_id),
            ),
            cancel_effect(*old(ctx)),
        ),
{
    let state_pda = find_program_address(&state_seed(), &ctx.initializer.key, &ctx.program_id);
    let vault_pda = find_program_address(&vault_seed(), &ctx.initializer.key, &ctx.program_id);
    cancel_with(ctx, state_pda, vault_pda)
}

} // verus!
