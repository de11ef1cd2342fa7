//! The operations of the escrow: purchase, claim, withdrawal and override.
//!
//! Each one takes the records it works on and either refuses, leaving them as
//! they were, or changes them in one step and says which transfers go with the
//! change.

use crate::accounts::{
    ClaimLockedWenToken, DepositUsdcForWenToken, FormerHoldersList, WithdrawUSDC, WithdrawWenToken,
};
use crate::state::{
    AssetAccount, Authorization, ErrorCode, Settlement, Transfer, UserInfoAccount, DENOMINATOR,
    LOCK_DURATION, LOCK_RATE,
};
use vstd::prelude::*;

verus! {

/// The part of a deposit that is withheld until maturity: the lock rate
/// applied to the amount, rounded down.
pub open spec fn locked_share(amount: u64) -> u64 {
    ((amount as int * LOCK_RATE as int) / DENOMINATOR as int) as u64
}

/// The part of a deposit that is released at once: what is not withheld.
/// The odd unit of an odd amount falls here.
pub open spec fn immediate_share(amount: u64) -> u64 {
    (amount - locked_share(amount)) as u64
}

/// The lock rate is one half.
pub proof fn lemma_locked_share_is_half(amount: u64)
    ensures
        locked_share(amount) as int == amount as int / 2,
        immediate_share(amount) as int == amount as int - amount as int / 2,
        locked_share(amount) <= immediate_share(amount) <= locked_share(amount) + 1,
{
    let a = amount as int;
    assert((a * 50) / 100 == a / 2) by (nonlinear_arith);
}

/// Splits a deposit into the share that is locked and the share that is
/// released at once, in this order.
pub fn split_deposit(amount: u64) -> (r: (u64, u64))
    ensures
        r.0 == locked_share(amount),
        r.1 == immediate_share(amount),
        r.0 + r.1 == amount,
{
    proof {
        lemma_locked_share_is_half(amount);
    }
    let lock_amount: u64 = amount / 2;
    (lock_amount, amount - lock_amount)
}

/// `account` with `amount` units more.
pub open spec fn credited(account: AssetAccount, amount: u64) -> AssetAccount {
    AssetAccount { amount: (account.amount + amount) as u64, ..account }
}

/// `account` with `amount` units less.
pub open spec fn debited(account: AssetAccount, amount: u64) -> AssetAccount {
    AssetAccount { amount: (account.amount - amount) as u64, ..account }
}

/// Why a purchase of `amount` is refused, if it is.
pub open spec fn purchase_refusal(ctx: DepositUsdcForWenToken, amount: u64) -> Option<ErrorCode> {
    if amount < 1 {
        Some(ErrorCode::InvalidAmount)
    } else if ctx.user_usdc.amount < amount {
        Some(ErrorCode::InsufficientPaymentAsset)
    } else if ctx.pool_wen.amount < immediate_share(amount) {
        Some(ErrorCode::InsufficientSaleAsset)
    } else {
        None
    }
}

/// Whether the balances and counters that a purchase of `amount` raises
/// stay within 64 bits.
pub open spec fn purchase_fits(ctx: DepositUsdcForWenToken, amount: u64) -> bool {
    &&& ctx.pool_usdc.amount + amount <= u64::MAX
    &&& ctx.user_wen.amount + immediate_share(amount) <= u64::MAX
    &&& ctx.user_account.locked_amount + locked_share(amount) <= u64::MAX
    &&& ctx.user_account.deposit_amount + amount <= u64::MAX
}

/// The records after a purchase of `amount` at time `now`.
pub open spec fn after_purchase(ctx: DepositUsdcForWenToken, amount: u64, now: i64) -> DepositUsdcForWenToken {
    DepositUsdcForWenToken {
        user_usdc: debited(ctx.user_usdc, amount),
        pool_usdc: credited(ctx.pool_usdc, amount),
        pool_wen: debited(ctx.pool_wen, immediate_share(amount)),
        user_wen: credited(ctx.user_wen, immediate_share(amount)),
        user_account: UserInfoAccount {
            locked_amount: (ctx.user_account.locked_amount + locked_share(amount)) as u64,
            deposit_amount: (ctx.user_account.deposit_amount + amount) as u64,
            last_deposit_ts: now,
            ..ctx.user_account
        },
        ..ctx
    }
}

/// The two transfers of a purchase of `amount`.
pub open spec fn purchase_settlement(ctx: DepositUsdcForWenToken, amount: u64) -> Settlement {
    Settlement {
        payment: Transfer {
            from: ctx.user_usdc.address,
            to: ctx.pool_usdc.address,
            authority: ctx.user_authority,
            amount,
            authorization: Authorization::Signature,
        },
        release: Transfer {
            from: ctx.pool_wen.address,
            to: ctx.user_wen.address,
            authority: ctx.presale_key,
            amount: immediate_share(amount),
            authorization: Authorization::DerivedSigner,
        },
    }
}

/// Whether a purchase of `amount` is either refused or stays within 64
/// bits: whether `purchase` may be called.
pub fn purchase_within_limits(ctx: &DepositUsdcForWenToken, amount: u64) -> (r: bool)
    ensures
        r == (purchase_refusal(*ctx, amount).is_none() ==> purchase_fits(*ctx, amount)),
{
    if amount < 1 || ctx.user_usdc.amount < amount {
        return true;
    }
    let (lock_amount, spend_amount) = split_deposit(amount);
    if ctx.pool_wen.amount < spend_amount {
        return true;
    }
    amount <= u64::MAX - ctx.pool_usdc.amount && spend_amount <= u64::MAX - ctx.user_wen.amount
        && lock_amount <= u64::MAX - ctx.user_account.locked_amount && amount <= u64::MAX
        - ctx.user_account.deposit_amount
}

/// Deposits `amount` of the payment asset at time `now`.
///
/// The whole amount goes from the caller to the pool. Of the same number of
/// units of the sale asset, the immediate share goes from the pool to the
/// caller, and the locked share is added to the caller's locked balance. The
/// entry's clock is set to `now`, for the whole locked balance.
///
/// The entry is the caller's own. Refused, with nothing changed, where the
/// amount is zero, where the caller holds less than the amount, or where the
/// pool holds less than the immediate share.
pub fn purchase(ctx: &mut DepositUsdcForWenToken, amount: u64, now: i64) -> (r: Result<
    Settlement,
    ErrorCode,
>)
    requires
        old(ctx).user_account.owner == old(ctx).user_authority,
        purchase_refusal(*old(ctx), amount).is_none() ==> purchase_fits(*old(ctx), amount),
    ensures
        match r {
            Ok(settlement) => {
                &&& purchase_refusal(*old(ctx), amount).is_none()
                &&& *final(ctx) == after_purchase(*old(ctx), amount, now)
                &&& settlement == purchase_settlement(*old(ctx), amount)
            },
            Err(e) => {
                &&& purchase_refusal(*old(ctx), amount) == Some(e)
                &&& *final(ctx) == *old(ctx)
            },
        },
{
    if amount < 1 {
        return Err(ErrorCode::InvalidAmount);
    }
    if ctx.user_usdc.amount < amount {
        return Err(ErrorCode::InsufficientPaymentAsset);
    }
    let (lock_amount, spend_amount) = split_deposit(amount);
    if ctx.pool_wen.amount < spend_amount {
        return Err(ErrorCode::InsufficientSaleAsset);
    }
    let payment = Transfer {
        from: ctx.user_usdc.address,
        to: ctx.pool_usdc.address,
        authority: ctx.user_authority,
        amount,
        authorization: Authorization::Signature,
    };
    let release = Transfer {
        from: ctx.pool_wen.address,
        to: ctx.user_wen.address,
        authority: ctx.presale_key,
        amount: spend_amount,
        authorization: Authorization::DerivedSigner,
    };
    ctx.user_usdc.amount = ctx.user_usdc.amount - amount;
    ctx.pool_usdc.amount = ctx.pool_usdc.amount + amount;
    ctx.pool_wen.amount = ctx.pool_wen.amount - spend_amount;
    ctx.user_wen.amount = ctx.user_wen.amount + spend_amount;

    let deposit_amount: u64 = ctx.user_account.deposit_amount;
    let locked_amount: u64 = ctx.user_account.locked_amount;
    ctx.user_account.locked_amount = locked_amount + lock_amount;
    ctx.user_account.deposit_amount = deposit_amount + amount;
    ctx.user_account.last_deposit_ts = now;
    Ok(Settlement { payment, release })
}

/// Whether a balance locked since `last` may be claimed at `now`: whether
/// the maturity period has passed between the two.
pub open spec fn matured(last: i64, now: i64) -> bool {
    now - last >= LOCK_DURATION
}

/// Whether a balance locked since `last` may be claimed at `now`.
pub fn is_matured(last: i64, now: i64) -> (r: bool)
    ensures
        r == matured(last, now),
{
    let elapsed: i128 = now as i128 - last as i128;
    elapsed >= LOCK_DURATION as i128
}

/// Why a claim at time `now` is refused, if it is.
pub open spec fn claim_refusal(ctx: ClaimLockedWenToken, now: i64) -> Option<ErrorCode> {
    if ctx.user_account.locked_amount < 1 {
        Some(ErrorCode::NothingToClaim)
    } else if !matured(ctx.user_account.last_deposit_ts, now) {
        Some(ErrorCode::NotMatured)
    } else if ctx.pool_wen.amount < ctx.user_account.locked_amount {
        Some(ErrorCode::PoolUndercollateralized)
    } else {
        None
    }
}

/// The records after a claim at time `now`.
pub open spec fn after_claim(ctx: ClaimLockedWenToken, now: i64) -> ClaimLockedWenToken {
    ClaimLockedWenToken {
        pool_wen: debited(ctx.pool_wen, ctx.user_account.locked_amount),
        user_wen: credited(ctx.user_wen, ctx.user_account.locked_amount),
        user_account: UserInfoAccount { locked_amount: 0, last_deposit_ts: now, ..ctx.user_account },
        ..ctx
    }
}

/// The transfer of a claim: the whole locked balance, from the pool to the
/// caller, in the name of the pool record.
pub open spec fn claim_transfer(ctx: ClaimLockedWenToken) -> Transfer {
    Transfer {
        from: ctx.pool_wen.address,
        to: ctx.user_wen.address,
        authority: ctx.presale_key,
        amount: ctx.user_account.locked_amount,
        authorization: Authorization::DerivedSigner,
    }
}

/// Whether what a claim credits stays within 64 bits.
pub open spec fn claim_fits(ctx: ClaimLockedWenToken) -> bool {
    ctx.user_wen.amount + ctx.user_account.locked_amount <= u64::MAX
}

/// Whether a claim at time `now` is either refused or stays within 64 bits:
/// whether `claim_locked_wen` may be called.
pub fn claim_within_limits(ctx: &ClaimLockedWenToken, now: i64) -> (r: bool)
    ensures
        r == (claim_refusal(*ctx, now).is_none() ==> claim_fits(*ctx)),
{
    if ctx.user_account.locked_amount < 1 || !is_matured(ctx.user_account.last_deposit_ts, now)
        || ctx.pool_wen.amount < ctx.user_account.locked_amount {
        return true;
    }
    ctx.user_account.locked_amount <= u64::MAX - ctx.user_wen.amount
}

/// Releases the caller's whole locked balance at time `now`. The entry is
/// the caller's own.
///
/// Refused, with nothing changed, where nothing is locked, where the maturity
/// period has not passed since the entry's last activity, or where the pool
/// holds less of the sale asset than the entry has locked. Otherwise the
/// locked balance goes from the pool to the caller in one piece, the entry's
/// locked balance becomes zero and its clock is set to `now`.
pub fn claim_locked_wen(ctx: &mut ClaimLockedWenToken, now: i64) -> (r: Result<Transfer, ErrorCode>)
    requires
        old(ctx).user_account.owner == old(ctx).user_authority,
        claim_refusal(*old(ctx), now).is_none() ==> claim_fits(*old(ctx)),
    ensures
        match r {
            Ok(transfer) => {
                &&& claim_refusal(*old(ctx), now).is_none()
                &&& *final(ctx) == after_claim(*old(ctx), now)
                &&& transfer == claim_transfer(*old(ctx))
            },
            Err(e) => {
                &&& claim_refusal(*old(ctx), now) == Some(e)
                &&& *final(ctx) == *old(ctx)
            },
        },
{
    let locked_amount: u64 = ctx.user_account.locked_amount;
    let last_ts: i64 = ctx.user_account.last_deposit_ts;
    if locked_amount < 1 {
        return Err(ErrorCode::NothingToClaim);
    }
    if !is_matured(last_ts, now) {
        return Err(ErrorCode::NotMatured);
    }
    let spend_amount: u64 = locked_amount;
    if ctx.pool_wen.amount < spend_amount {
        return Err(ErrorCode::PoolUndercollateralized);
    }
    let transfer = Transfer {
        from: ctx.pool_wen.address,
        to: ctx.user_wen.address,
        authority: ctx.presale_key,
        amount: spend_amount,
        authorization: Authorization::DerivedSigner,
    };
    ctx.pool_wen.amount = ctx.pool_wen.amount - spend_amount;
    ctx.user_wen.amount = ctx.user_wen.amount + spend_amount;
    ctx.user_account.locked_amount = 0;
    ctx.user_account.last_deposit_ts = now;
    Ok(transfer)
}

/// Why a withdrawal of the payment asset is refused, if it is.
pub open spec fn withdraw_usdc_refusal(ctx: WithdrawUSDC) -> Option<ErrorCode> {
    if ctx.presale_account.presale_owner != ctx.user_authority {
        Some(ErrorCode::Unauthorized)
    } else if ctx.pool_usdc.amount < 1 {
        Some(ErrorCode::EmptyPool)
    } else {
        None
    }
}

/// The records after a withdrawal of the payment asset.
pub open spec fn after_withdraw_usdc(ctx: WithdrawUSDC) -> WithdrawUSDC {
    WithdrawUSDC {
        pool_usdc: debited(ctx.pool_usdc, ctx.pool_usdc.amount),
        user_usdc: credited(ctx.user_usdc, ctx.pool_usdc.amount),
        ..ctx
    }
}

/// The transfer of a withdrawal of the payment asset: all that the pool
/// holds, to the caller, in the name of the pool record.
pub open spec fn withdraw_usdc_transfer(ctx: WithdrawUSDC) -> Transfer {
    Transfer {
        from: ctx.pool_usdc.address,
        to: ctx.user_usdc.address,
        authority: ctx.presale_key,
        amount: ctx.pool_usdc.amount,
        authorization: Authorization::DerivedSigner,
    }
}

/// Whether what a withdrawal of the payment asset credits stays within 64
/// bits.
pub open spec fn withdraw_usdc_fits(ctx: WithdrawUSDC) -> bool {
    ctx.user_usdc.amount + ctx.pool_usdc.amount <= u64::MAX
}

/// Whether a withdrawal of the payment asset is either refused or stays
/// within 64 bits: whether `withdraw_usdc` may be called.
pub fn withdraw_usdc_within_limits(ctx: &WithdrawUSDC) -> (r: bool)
    ensures
        r == (withdraw_usdc_refusal(*ctx).is_none() ==> withdraw_usdc_fits(*ctx)),
{
    if ctx.presale_account.presale_owner != ctx.user_authority || ctx.pool_usdc.amount < 1 {
        return true;
    }
    ctx.pool_usdc.amount <= u64::MAX - ctx.user_usdc.amount
}

/// Sweeps the pool's whole balance of the payment asset to the caller.
///
/// Refused, with nothing changed, where the caller is not the pool's owner,
/// or where the pool holds nothing of the payment asset.
pub fn withdraw_usdc(ctx: &mut WithdrawUSDC) -> (r: Result<Transfer, ErrorCode>)
    requires
        withdraw_usdc_refusal(*old(ctx)).is_none() ==> withdraw_usdc_fits(*old(ctx)),
    ensures
        match r {
            Ok(transfer) => {
                &&& withdraw_usdc_refusal(*old(ctx)).is_none()
                &&& *final(ctx) == after_withdraw_usdc(*old(ctx))
                &&& transfer == withdraw_usdc_transfer(*old(ctx))
            },
            Err(e) => {
                &&& withdraw_usdc_refusal(*old(ctx)) == Some(e)
                &&& *final(ctx) == *old(ctx)
            },
        },
{
    if ctx.presale_account.presale_owner != ctx.user_authority {
        return Err(ErrorCode::Unauthorized);
    }
    let spend_amount: u64 = ctx.pool_usdc.amount;
    if spend_amount < 1 {
        return Err(ErrorCode::EmptyPool);
    }
    let transfer = Transfer {
        from: ctx.pool_usdc.address,
        to: ctx.user_usdc.address,
        authority: ctx.presale_key,
        amount: spend_amount,
        authorization: Authorization::DerivedSigner,
    };
    ctx.pool_usdc.amount = ctx.pool_usdc.amount - spend_amount;
    ctx.user_usdc.amount = ctx.user_usdc.amount + spend_amount;
    Ok(transfer)
}

/// Why a withdrawal of the sale asset is refused, if it is.
pub open spec fn withdraw_wen_refusal(ctx: WithdrawWenToken) -> Option<ErrorCode> {
    if ctx.presale_account.presale_owner != ctx.user_authority {
        Some(ErrorCode::Unauthorized)
    } else if ctx.pool_wen.amount < 1 {
        Some(ErrorCode::EmptyPool)
    } else {
        None
    }
}

/// The records after a withdrawal of the sale asset.
pub open spec fn after_withdraw_wen(ctx: WithdrawWenToken) -> WithdrawWenToken {
    WithdrawWenToken {
        pool_wen: debited(ctx.pool_wen, ctx.pool_wen.amount),
        user_wen: credited(ctx.user_wen, ctx.pool_wen.amount),
        ..ctx
    }
}

/// The transfer of a withdrawal of the sale asset: all that the pool holds,
/// to the caller, in the name of the pool record.
pub open spec fn withdraw_wen_transfer(ctx: WithdrawWenToken) -> Transfer {
    Transfer {
        from: ctx.pool_wen.address,
        to: ctx.user_wen.address,
        authority: ctx.presale_key,
        amount: ctx.pool_wen.amount,
        authorization: Authorization::DerivedSigner,
    }
}

/// Whether what a withdrawal of the sale asset credits stays within 64 bits.
pub open spec fn withdraw_wen_fits(ctx: WithdrawWenToken) -> bool {
    ctx.user_wen.amount + ctx.pool_wen.amount <= u64::MAX
}

/// Whether a withdrawal of the sale asset is either refused or stays within
/// 64 bits: whether `withdraw_wen` may be called.
pub fn withdraw_wen_within_limits(ctx: &WithdrawWenToken) -> (r: bool)
    ensures
        r == (withdraw_wen_refusal(*ctx).is_none() ==> withdraw_wen_fits(*ctx)),
{
    if ctx.presale_account.presale_owner != ctx.user_authority || ctx.pool_wen.amount < 1 {
        return true;
    }
    ctx.pool_wen.amount <= u64::MAX - ctx.user_wen.amount
}

/// Sweeps the pool's whole balance of the sale asset to the caller.
///
/// Refused, with nothing changed, where the caller is not the pool's owner,
/// or where the pool holds nothing of the sale asset.
pub fn withdraw_wen(ctx: &mut WithdrawWenToken) -> (r: Result<Transfer, ErrorCode>)
    requires
        withdraw_wen_refusal(*old(ctx)).is_none() ==> withdraw_wen_fits(*old(ctx)),
    ensures
        match r {
            Ok(transfer) => {
                &&& withdraw_wen_refusal(*old(ctx)).is_none()
                &&& *final(ctx) == after_withdraw_wen(*old(ctx))
                &&& transfer == withdraw_wen_transfer(*old(ctx))
            },
            Err(e) => {
                &&& withdraw_wen_refusal(*old(ctx)) == Some(e)
                &&& *final(ctx) == *old(ctx)
            },
        },
{
    if ctx.presale_account.presale_owner != ctx.user_authority {
        return Err(ErrorCode::Unauthorized);
    }
    let spend_amount: u64 = ctx.pool_wen.amount;
    if spend_amount < 1 {
        return Err(ErrorCode::EmptyPool);
    }
    let transfer = Transfer {
        from: ctx.pool_wen.address,
        to: ctx.user_wen.address,
        authority: ctx.presale_key,
        amount: spend_amount,
        authorization: Authorization::DerivedSigner,
    };
    ctx.pool_wen.amount = ctx.pool_wen.amount - spend_amount;
    ctx.user_wen.amount = ctx.user_wen.amount + spend_amount;
    Ok(transfer)
}

/// Why an override is refused, if it is.
pub open spec fn override_refusal(ctx: FormerHoldersList) -> Option<ErrorCode> {
    if ctx.presale_account.presale_owner != ctx.user_authority {
        Some(ErrorCode::Unauthorized)
    } else {
        None
    }
}

/// The records after the owner has set a participant's locked balance to
/// `amount` at time `now`.
pub open spec fn after_override(ctx: FormerHoldersList, amount: u64, now: i64) -> FormerHoldersList {
    FormerHoldersList {
        user_account: UserInfoAccount {
            locked_amount: amount,
            last_deposit_ts: now,
            ..ctx.user_account
        },
        ..ctx
    }
}

/// Sets a participant's locked balance to `amount` and the entry's clock to
/// `now`, for a participant who held the sale asset before the escrow did.
///
/// Refused with `Unauthorized`, with nothing changed, where the caller is
/// not the pool's owner. No asset moves: whether the pool can back the
/// balance is tested when it is claimed.
pub fn former_holders_config(ctx: &mut FormerHoldersList, amount: u64, now: i64) -> (r: Result<
    (),
    ErrorCode,
>)
    ensures
        match r {
            Ok(_) => {
                &&& override_refusal(*old(ctx)).is_none()
                &&& *final(ctx) == after_override(*old(ctx), amount, now)
            },
            Err(e) => {
                &&& override_refusal(*old(ctx)) == Some(e)
                &&& *final(ctx) == *old(ctx)
            },
        },
{
    if ctx.presale_account.presale_owner != ctx.user_authority {
        return Err(ErrorCode::Unauthorized);
    }
    ctx.user_account.locked_amount = amount;
    ctx.user_account.last_deposit_ts = now;
    Ok(())
}

/// Every deposit is split without loss: the two shares add up to the
/// amount, and the locked share is half the amount, rounded down.
pub proof fn lemma_shares_add_up(amount: u64)
    ensures
        immediate_share(amount) + locked_share(amount) == amount,
        locked_share(amount) == amount / 2,
{
    lemma_locked_share_is_half(amount);
}

/// An accepted purchase releases and locks what the split says: the units
/// released at once and the units added to the locked balance add up to the
/// amount paid, and the units locked are half of it, rounded down.
pub proof fn lemma_purchase_splits_amount(ctx: DepositUsdcForWenToken, amount: u64, now: i64)
    requires
        purchase_refusal(ctx, amount).is_none(),
        purchase_fits(ctx, amount),
    ensures
        purchase_settlement(ctx, amount).payment.amount == amount,
        purchase_settlement(ctx, amount).release.amount + (after_purchase(
            ctx,
            amount,
            now,
        ).user_account.locked_amount - ctx.user_account.locked_amount) == amount,
        after_purchase(ctx, amount, now).user_account.locked_amount
            - ctx.user_account.locked_amount == amount / 2,
        after_purchase(ctx, amount, now).user_account.deposit_amount
            == ctx.user_account.deposit_amount + amount,
{
    lemma_locked_share_is_half(amount);
}

/// The maturity gate of a claim on an entry that has something locked.
/// Before the entry's last activity plus the maturity period the claim is
/// refused with `NotMatured`. From that moment on, where the pool holds at
/// least the locked balance, it is accepted, releases the whole locked
/// balance and leaves nothing locked.
pub proof fn lemma_claim_gate(ctx: ClaimLockedWenToken, now: i64)
    requires
        ctx.user_account.locked_amount >= 1,
    ensures
        now < ctx.user_account.last_deposit_ts + LOCK_DURATION ==> claim_refusal(ctx, now) == Some(
            ErrorCode::NotMatured,
        ),
        now >= ctx.user_account.last_deposit_ts + LOCK_DURATION && ctx.pool_wen.amount
            >= ctx.user_account.locked_amount ==> {
            &&& claim_refusal(ctx, now).is_none()
            &&& claim_transfer(ctx).amount == ctx.user_account.locked_amount
            &&& after_claim(ctx, now).user_account.locked_amount == 0
        },
{
}

/// A claim leaves the entry's cumulative deposit and its owner as they
/// were, and so does a purchase the owner.
pub proof fn lemma_claim_keeps_deposit(
    ctx: ClaimLockedWenToken,
    now: i64,
    deposit: DepositUsdcForWenToken,
    amount: u64,
)
    ensures
        after_claim(ctx, now).user_account.deposit_amount == ctx.user_account.deposit_amount,
        after_claim(ctx, now).user_account.owner == ctx.user_account.owner,
        after_claim(ctx, now).user_authority == ctx.user_authority,
        after_purchase(deposit, amount, now).user_account.owner == deposit.user_account.owner,
        after_purchase(deposit, amount, now).user_authority == deposit.user_authority,
{
}

/// Right after a claim was accepted, a second one is refused with
/// `NothingToClaim`, whatever the time.
pub proof fn lemma_claim_once(ctx: ClaimLockedWenToken, now: i64, later: i64)
    requires
        claim_refusal(ctx, now).is_none(),
    ensures
        claim_refusal(after_claim(ctx, now), later) == Some(ErrorCode::NothingToClaim),
{
}

/// An accepted withdrawal of the payment asset moves the pool's whole
/// balance and leaves the pool with nothing, so that a second withdrawal is
/// refused with `EmptyPool`.
pub proof fn lemma_withdraw_usdc_drains(ctx: WithdrawUSDC)
    requires
        withdraw_usdc_refusal(ctx).is_none(),
    ensures
        withdraw_usdc_transfer(ctx).amount == ctx.pool_usdc.amount,
        after_withdraw_usdc(ctx).pool_usdc.amount == 0,
        withdraw_usdc_refusal(after_withdraw_usdc(ctx)) == Some(ErrorCode::EmptyPool),
{
}

/// An accepted withdrawal of the sale asset moves the pool's whole balance
/// and leaves the pool with nothing, so that a second withdrawal is refused
/// with `EmptyPool`.
pub proof fn lemma_withdraw_wen_drains(ctx: WithdrawWenToken)
    requires
        withdraw_wen_refusal(ctx).is_none(),
    ensures
        withdraw_wen_transfer(ctx).amount == ctx.pool_wen.amount,
        after_withdraw_wen(ctx).pool_wen.amount == 0,
        withdraw_wen_refusal(after_withdraw_wen(ctx)) == Some(ErrorCode::EmptyPool),
{
}

/// A caller who is not the pool's owner is refused by both withdrawals and
/// by the override, with `Unauthorized` and whatever else holds of the
/// records. A refusal leaves every record as it was.
pub proof fn lemma_owner_only(
    usdc: WithdrawUSDC,
    wen: WithdrawWenToken,
    holders: FormerHoldersList,
)
    ensures
        usdc.user_authority != usdc.presale_account.presale_owner ==> withdraw_usdc_refusal(usdc)
            == Some(ErrorCode::Unauthorized),
        wen.user_authority != wen.presale_account.presale_owner ==> withdraw_wen_refusal(wen)
            == Some(ErrorCode::Unauthorized),
        holders.user_authority != holders.presale_account.presale_owner ==> override_refusal(
            holders,
        ) == Some(ErrorCode::Unauthorized),
{
}

} // verus!
