//! Properties of the three operations, stated over their contracts.
use vstd::prelude::*;
use crate::accounts::{Cancel, Exchange, Initialize, TokenAccount};
use crate::instructions::{
    cancel_effect, cancel_error, exchange_effect, exchange_error, holding_error, initialize_effect,
    initialize_error, new_record, seeds_error, settles, state_address, vault_address,
};
use crate::state::{kind_of, ErrorKind, EscrowError};

verus! {

broadcast use vstd::array::group_array_axioms;

/// A successful opening leaves exactly the offered amount in custody, under
/// the record's authority, takes that amount from the initializer's holding,
/// and writes the record at the initializer's derived record address.
pub proof fn initialize_funds_custody(ctx: Initialize, initializer_amount: u64, taker_amount: u64)
    requires
        initialize_error(
            ctx,
            initializer_amount,
            taker_amount,
            state_address(ctx.initializer.key, ctx.program_id),
            vault_address(ctx.initializer.key, ctx.program_id),
        ) is None,
    ensures
        ({
            let post = initialize_effect(ctx, initializer_amount, taker_amount);
            &&& post.vault.data == Some(
                TokenAccount {
                    key: ctx.vault.key,
                    mint: ctx.mint_a,
                    owner: ctx.escrow_state.key,
                    amount: initializer_amount,
                },
            )
            &&& post.escrow_state.data == Some(new_record(ctx, initializer_amount, taker_amount))
            &&& state_address(ctx.initializer.key, ctx.program_id) matches Some((a, _))
                && post.escrow_state.key.bytes@ == a
            &&& post.initializer_ata_a.amount + initializer_amount == ctx.initializer_ata_a.amount
        }),
{
}

/// Two successful openings by the same initializer under the same program
/// write their records at the same address: one initializer has at most one
/// record at a time.
pub proof fn record_address_is_unique(c1: Initialize, a1: u64, t1: u64, c2: Initialize, a2: u64, t2: u64)
    requires
        c1.initializer.key == c2.initializer.key,
        c1.program_id == c2.program_id,
        initialize_error(
            c1,
            a1,
            t1,
            state_address(c1.initializer.key, c1.program_id),
            vault_address(c1.initializer.key, c1.program_id),
        ) is None,
        initialize_error(
            c2,
            a2,
            t2,
            state_address(c2.initializer.key, c2.program_id),
            vault_address(c2.initializer.key, c2.program_id),
        ) is None,
    ensures
        c1.escrow_state.key == c2.escrow_state.key,
        c1.vault.key == c2.vault.key,
{
    assert(c1.escrow_state.key.bytes =~= c2.escrow_state.key.bytes);
    assert(c1.vault.key.bytes =~= c2.vault.key.bytes);
}

/// Opening again over a record that an earlier opening wrote fails with
/// `RecordAlreadyExists` and changes nothing.
pub proof fn reinitialize_fails(
    first: Initialize,
    a1: u64,
    t1: u64,
    again: Initialize,
    a2: u64,
    t2: u64,
    state_pda: Option<(Seq<u8>, u8)>,
    vault_pda: Option<(Seq<u8>, u8)>,
    r: Result<(), EscrowError>,
    after: Initialize,
)
    requires
        again.escrow_state == initialize_effect(first, a1, t1).escrow_state,
        settles(r, again, after, initialize_error(again, a2, t2, state_pda, vault_pda), initialize_effect(again, a2, t2)),
    ensures
        r == Err::<(), EscrowError>(EscrowError::RecordAlreadyExists),
        after == again,
{
}

/// A settlement by the recorded taker, over the derived record and custody
/// addresses, with custody holding exactly the offered amount of asset A
/// under the record's authority, with the holdings of the record's assets
/// and parties, enough of asset B, and room for both credits, succeeds. It
/// credits the initializer with exactly the requested amount and the taker
/// with exactly the offered amount, debits the taker the requested amount,
/// closes the record and the custody holding, and keeps the total of each
/// asset over the accounts it touches. Here the two assets differ and the
/// taker is not the initializer, so the three holdings are three accounts.
pub proof fn taker_exchange_settles(ctx: Exchange)
    requires
        ctx.escrow_state.data is Some,
        ctx.vault.data is Some,
        ({
            let rec = ctx.escrow_state.data->Some_0;
            let held = ctx.vault.data->Some_0;
            &&& ctx.taker.is_signer
            &&& ctx.taker.key == rec.taker
            &&& ctx.initializer == rec.initializer
            &&& ctx.mint_a == rec.mint_a
            &&& ctx.mint_b == rec.mint_b
            &&& rec.mint_a != rec.mint_b
            &&& rec.taker != rec.initializer
            &&& seeds_error(ctx.escrow_state.key, state_address(ctx.initializer, ctx.program_id)) is None
            &&& seeds_error(ctx.vault.key, vault_address(ctx.initializer, ctx.program_id)) is None
            &&& held.mint == rec.mint_a
            &&& held.owner == ctx.escrow_state.key
            &&& held.amount == rec.initializer_amount
            &&& holding_error(ctx.taker_ata_a, rec.mint_a, rec.taker) is None
            &&& holding_error(ctx.taker_ata_b, rec.mint_b, rec.taker) is None
            &&& holding_error(ctx.initializer_ata_b, rec.mint_b, rec.initializer) is None
            &&& ctx.taker_ata_a.key != ctx.taker_ata_b.key
            &&& ctx.taker_ata_a.key != ctx.initializer_ata_b.key
            &&& ctx.taker_ata_b.key != ctx.initializer_ata_b.key
            &&& ctx.vault.key != ctx.taker_ata_a.key
            &&& ctx.vault.key != ctx.taker_ata_b.key
            &&& ctx.vault.key != ctx.initializer_ata_b.key
            &&& ctx.taker_ata_b.amount >= rec.taker_amount
            &&& ctx.initializer_ata_b.amount + rec.taker_amount <= u64::MAX
            &&& ctx.taker_ata_a.amount + rec.initializer_amount <= u64::MAX
        }),
    ensures
        exchange_error(
            ctx,
            state_address(ctx.initializer, ctx.program_id),
            vault_address(ctx.initializer, ctx.program_id),
        ) is None,
        ({
            let rec = ctx.escrow_state.data->Some_0;
            let held = ctx.vault.data->Some_0;
            let post = exchange_effect(ctx);
            &&& post.initializer_ata_b.amount == ctx.initializer_ata_b.amount + rec.taker_amount
            &&& post.taker_ata_a.amount == ctx.taker_ata_a.amount + rec.initializer_amount
            &&& post.taker_ata_b.amount == ctx.taker_ata_b.amount - rec.taker_amount
            &&& post.escrow_state.data is None
            &&& post.vault.data is None
            &&& post.taker_ata_a.amount == ctx.taker_ata_a.amount + held.amount
            &&& post.taker_ata_b.amount + post.initializer_ata_b.amount
                == ctx.taker_ata_b.amount + ctx.initializer_ata_b.amount
        }),
{
}

/// In a successful settlement where both assets are the same and the taker
/// holds them in one account, that account ends at its old balance less the
/// requested amount plus the offered amount, and the initializer gains the
/// requested amount.
pub proof fn same_asset_exchange_nets(ctx: Exchange)
    requires
        exchange_error(
            ctx,
            state_address(ctx.initializer, ctx.program_id),
            vault_address(ctx.initializer, ctx.program_id),
        ) is None,
        ctx.taker_ata_a.key == ctx.taker_ata_b.key,
        ctx.taker.key != ctx.initializer,
    ensures
        ({
            let rec = ctx.escrow_state.data->Some_0;
            let post = exchange_effect(ctx);
            &&& post.taker_ata_a.amount == ctx.taker_ata_a.amount - rec.taker_amount + rec.initializer_amount
            &&& post.taker_ata_b == post.taker_ata_a
            &&& post.initializer_ata_b.amount == ctx.initializer_ata_b.amount + rec.taker_amount
            &&& post.escrow_state.data is None
            &&& post.vault.data is None
        }),
{
}

/// A settlement by anyone but the recorded taker fails with an
/// authorization error and changes nothing.
pub proof fn exchange_needs_taker(
    ctx: Exchange,
    state_pda: Option<(Seq<u8>, u8)>,
    vault_pda: Option<(Seq<u8>, u8)>,
    r: Result<(), EscrowError>,
    after: Exchange,
)
    requires
        ctx.escrow_state.data is Some,
        ctx.escrow_state.data->Some_0.taker != ctx.taker.key || !ctx.taker.is_signer,
        settles(r, ctx, after, exchange_error(ctx, state_pda, vault_pda), exchange_effect(ctx)),
    ensures
        r is Err,
        kind_of(r->Err_0) == ErrorKind::Authorization,
        after == ctx,
{
}

/// A cancellation by anyone but the recorded initializer fails with an
/// authorization error and changes nothing.
pub proof fn cancel_needs_initializer(
    ctx: Cancel,
    state_pda: Option<(Seq<u8>, u8)>,
    vault_pda: Option<(Seq<u8>, u8)>,
    r: Result<(), EscrowError>,
    after: Cancel,
)
    requires
        ctx.escrow_state.data is Some,
        ctx.escrow_state.data->Some_0.initializer != ctx.initializer.key || !ctx.initializer.is_signer,
        settles(r, ctx, after, cancel_error(ctx, state_pda, vault_pda), cancel_effect(ctx)),
    ensures
        r is Err,
        kind_of(r->Err_0) == ErrorKind::Authorization,
        after == ctx,
{
}

/// A cancellation by the recorded, signing initializer, over the derived
/// record and custody addresses, with custody holding the record's asset A
/// under the record's authority, with the initializer's holding of that asset
/// apart from custody and room for the refund, succeeds: the whole custody
/// balance returns to the initializer and neither record nor custody remains.
pub proof fn initializer_cancel_refunds(ctx: Cancel)
    requires
        ctx.escrow_state.data is Some,
        ctx.vault.data is Some,
        ({
            let rec = ctx.escrow_state.data->Some_0;
            let held = ctx.vault.data->Some_0;
            &&& ctx.initializer.is_signer
            &&& ctx.initializer.key == rec.initializer
            &&& seeds_error(ctx.escrow_state.key, state_address(ctx.initializer.key, ctx.program_id)) is None
            &&& seeds_error(ctx.vault.key, vault_address(ctx.initializer.key, ctx.program_id)) is None
            &&& held.mint == rec.mint_a
            &&& held.owner == ctx.escrow_state.key
            &&& holding_error(ctx.initializer_ata_a, rec.mint_a, rec.initializer) is None
            &&& ctx.initializer_ata_a.key != ctx.vault.key
            &&& ctx.initializer_ata_a.amount + held.amount <= u64::MAX
        }),
    ensures
        cancel_error(
            ctx,
            state_address(ctx.initializer.key, ctx.program_id),
            vault_address(ctx.initializer.key, ctx.program_id),
        ) is None,
        cancel_effect(ctx).initializer_ata_a.amount == ctx.initializer_ata_a.amount + ctx.vault.data->Some_0.amount,
        cancel_effect(ctx).escrow_state.data is None,
        cancel_effect(ctx).vault.data is None,
{
}

/// Cancelling, by the same signing initializer, an escrow that an opening
/// just made succeeds, gives the initializer's holding back exactly what it
/// held before the opening, and leaves neither record nor custody holding.
pub proof fn cancel_restores_deposit(
    init: Initialize,
    initializer_amount: u64,
    taker_amount: u64,
    ctx: Cancel,
)
    requires
        initialize_error(
            init,
            initializer_amount,
            taker_amount,
            state_address(init.initializer.key, init.program_id),
            vault_address(init.initializer.key, init.program_id),
        ) is None,
        ctx.program_id == init.program_id,
        ctx.initializer == init.initializer,
        ctx.escrow_state == initialize_effect(init, initializer_amount, taker_amount).escrow_state,
        ctx.vault == initialize_effect(init, initializer_amount, taker_amount).vault,
        ctx.initializer_ata_a == initialize_effect(init, initializer_amount, taker_amount).initializer_ata_a,
    ensures
        cancel_error(
            ctx,
            state_address(ctx.initializer.key, ctx.program_id),
            vault_address(ctx.initializer.key, ctx.program_id),
        ) is None,
        cancel_effect(ctx).initializer_ata_a == init.initializer_ata_a,
        cancel_effect(ctx).escrow_state.data is None,
        cancel_effect(ctx).vault.data is None,
{
}

/// Once a settlement has closed a record, a cancellation over that record
/// fails with `RecordMissing` and changes nothing.
pub proof fn cancel_after_exchange_fails(
    settled: Exchange,
    ctx: Cancel,
    state_pda: Option<(Seq<u8>, u8)>,
    vault_pda: Option<(Seq<u8>, u8)>,
    r: Result<(), EscrowError>,
    after: Cancel,
)
    requires
        exchange_error(
            settled,
            state_address(settled.initializer, settled.program_id),
            vault_address(settled.initializer, settled.program_id),
        ) is None,
        ctx.escrow_state == exchange_effect(settled).escrow_state,
        settles(r, ctx, after, cancel_error(ctx, state_pda, vault_pda), cancel_effect(ctx)),
    ensures
        r == Err::<(), EscrowError>(EscrowError::RecordMissing),
        after == ctx,
{
}

/// Once a cancellation has closed a record, a settlement over that record
/// fails with `RecordMissing` and changes nothing.
pub proof fn exchange_after_cancel_fails(
    cancelled: Cancel,
    ctx: Exchange,
    state_pda: Option<(Seq<u8>, u8)>,
    vault_pda: Option<(Seq<u8>, u8)>,
    r: Result<(), EscrowError>,
    after: Exchange,
)
    requires
        cancel_error(
            cancelled,
            state_address(cancelled.initializer.key, cancelled.program_id),
            vault_address(cancelled.initializer.key, cancelled.program_id),
        ) is None,
        ctx.escrow_state == cancel_effect(cancelled).escrow_state,
        settles(r, ctx, after, exchange_error(ctx, state_pda, vault_pda), exchange_effect(ctx)),
    ensures
        r == Err::<(), EscrowError>(EscrowError::RecordMissing),
        after == ctx,
{
}

} // verus!
