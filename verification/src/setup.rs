//! Creation of the pool record and of a participant's entry.

use crate::accounts::{InitUserAccount, Initialize};
use crate::identity::{address_text, base58_text};
use crate::state::{ErrorCode, PoolBumps, PresaleAccount, UserInfoAccount, USDC_DECIMAL};
use crate::title::{padded, PAD, TITLE_LEN};
use vstd::prelude::*;
use vstd::string::{StringExecFns, StringSliceAdditionalSpecFns};
use vstd::utf8::encode_utf8;

verus! {

/// The stored form of a title of at most ten bytes: the title's bytes, then
/// spaces up to the full width.
pub fn pad_title(title: &[u8]) -> (r: [u8; 10])
    requires
        title@.len() <= TITLE_LEN,
    ensures
        r@ == padded(title@),
{
    let mut name_data: [u8; 10] = [PAD; 10];
    let mut i: usize = 0;
    while i < title.len()
        invariant
            i <= title@.len() <= TITLE_LEN,
            forall|j: int| 0 <= j < i ==> name_data@[j] == title@[j],
            forall|j: int| i <= j < TITLE_LEN ==> name_data@[j] == PAD,
        decreases title@.len() - i,
    {
        name_data[i] = title[i];
        i += 1;
    }
    assert(name_data@ =~= padded(title@));
    name_data
}

/// The pool record that `initialize` writes.
pub open spec fn pool_record(ctx: Initialize, title: [u8; 10], bumps: PoolBumps) -> PresaleAccount {
    PresaleAccount {
        presale_title: title,
        bumps,
        presale_owner: ctx.presale_owner,
        usdc_mint: ctx.usdc_mint.address,
        wen_mint: ctx.wen_mint.address,
        pool_usdc: ctx.pool_usdc.address,
        pool_wen: ctx.pool_wen.address,
    }
}

/// Why the creation of a pool under `title` is refused, if it is.
pub open spec fn creation_refusal(ctx: Initialize, title: Seq<u8>) -> Option<ErrorCode> {
    if title.len() > TITLE_LEN {
        Some(ErrorCode::TitleTooLong)
    } else if ctx.presale_account.is_some() {
        Some(ErrorCode::AlreadyInitialized)
    } else if ctx.usdc_mint.decimals != USDC_DECIMAL {
        Some(ErrorCode::WrongPrecision)
    } else {
        None
    }
}

/// Creates the pool record: the title in its stored form, the three
/// nonces, the caller as owner, and the identities of the two assets and of
/// the two custody accounts.
///
/// Refused, with nothing changed, where the title has more than ten bytes,
/// where a pool record exists already, or where the payment asset does not
/// have six fractional digits.
pub fn initialize(ctx: &mut Initialize, presale_title: String, bumps: PoolBumps) -> (r: Result<
    (),
    ErrorCode,
>)
    ensures
        match r {
            Ok(_) => {
                &&& creation_refusal(*old(ctx), encode_utf8(presale_title@)).is_none()
                &&& final(ctx).presale_account.is_some()
                &&& final(ctx).presale_account.unwrap().presale_title@ == padded(
                    encode_utf8(presale_title@),
                )
                &&& *final(ctx) == (Initialize {
                    presale_account: Some(
                        pool_record(
                            *old(ctx),
                            final(ctx).presale_account.unwrap().presale_title,
                            bumps,
                        ),
                    ),
                    ..*old(ctx)
                })
            },
            Err(e) => {
                &&& creation_refusal(*old(ctx), encode_utf8(presale_title@)) == Some(e)
                &&& *final(ctx) == *old(ctx)
            },
        },
{
    let name_bytes = presale_title.as_str().as_bytes();
    if name_bytes.len() > TITLE_LEN {
        return Err(ErrorCode::TitleTooLong);
    }
    if ctx.presale_account.is_some() {
        return Err(ErrorCode::AlreadyInitialized);
    }
    if ctx.usdc_mint.decimals != USDC_DECIMAL {
        return Err(ErrorCode::WrongPrecision);
    }
    let name_data = pad_title(name_bytes);
    ctx.presale_account = Some(
        PresaleAccount {
            presale_title: name_data,
            bumps,
            presale_owner: ctx.presale_owner,
            usdc_mint: ctx.usdc_mint.address,
            wen_mint: ctx.wen_mint.address,
            pool_usdc: ctx.pool_usdc.address,
            pool_wen: ctx.pool_wen.address,
        },
    );
    Ok(())
}

/// A pool is created once: on records that an accepted creation has left,
/// a second creation is refused, whatever its title and the precision of
/// the payment asset, and a refusal leaves the pool record as it was.
pub proof fn lemma_created_once(ctx: Initialize, title: Seq<u8>)
    requires
        ctx.presale_account.is_some(),
    ensures
        creation_refusal(ctx, title).is_some(),
        title.len() <= TITLE_LEN ==> creation_refusal(ctx, title) == Some(
            ErrorCode::AlreadyInitialized,
        ),
{
}

/// Whether two fragments, put together, spell the text form of `identity`.
pub open spec fn fragments_spell(seed0: Seq<char>, seed1: Seq<char>, identity: Seq<char>) -> bool {
    seed0 + seed1 == identity
}

/// Whether two fragments, put together, are the text `identity`.
pub fn fragments_match(seed0: &str, seed1: &str, identity: &String) -> (r: bool)
    ensures
        r == fragments_spell(seed0@, seed1@, identity@),
{
    let mut owned_string: String = seed0.to_owned();
    owned_string.append(seed1);
    owned_string == *identity
}

/// The entry that `init_user_account` writes: the caller's, with nothing
/// deposited and nothing locked.
pub open spec fn fresh_entry(ctx: InitUserAccount, bump: u8) -> UserInfoAccount {
    UserInfoAccount {
        owner: ctx.user_authority,
        bump,
        deposit_amount: 0,
        locked_amount: 0,
        last_deposit_ts: 0,
    }
}

/// Why the creation of an entry from two fragments is refused, if it is.
pub open spec fn joining_refusal(ctx: InitUserAccount, seed0: Seq<char>, seed1: Seq<char>) -> Option<
    ErrorCode,
> {
    if !fragments_spell(seed0, seed1, base58_text(ctx.user_authority@)) {
        Some(ErrorCode::InitializationMismatch)
    } else {
        None
    }
}

/// The records after the caller has joined with the nonce `bump`: with a
/// fresh entry where there was none, unchanged where there was one.
pub open spec fn after_joining(ctx: InitUserAccount, bump: u8) -> InitUserAccount {
    if ctx.user_account.is_some() {
        ctx
    } else {
        InitUserAccount { user_account: Some(fresh_entry(ctx, bump)), ..ctx }
    }
}

/// Creates a fresh entry for the caller.
///
/// The two fragments, put together, must be the caller's identity in text
/// form. Where they are not, the call is refused with
/// `InitializationMismatch` and nothing changes. Where the entry exists
/// already, it stays as it is.
pub fn init_user_account(ctx: &mut InitUserAccount, bump: u8, seed0: String, seed1: String) -> (r:
    Result<(), ErrorCode>)
    ensures
        match r {
            Ok(_) => {
                &&& joining_refusal(*old(ctx), seed0@, seed1@).is_none()
                &&& *final(ctx) == after_joining(*old(ctx), bump)
            },
            Err(e) => {
                &&& joining_refusal(*old(ctx), seed0@, seed1@) == Some(e)
                &&& *final(ctx) == *old(ctx)
            },
        },
{
    let identity = address_text(&ctx.user_authority);
    if !fragments_match(seed0.as_str(), seed1.as_str(), &identity) {
        return Err(ErrorCode::InitializationMismatch);
    }
    if ctx.user_account.is_none() {
        ctx.user_account = Some(
            UserInfoAccount {
                owner: ctx.user_authority,
                bump,
                deposit_amount: 0,
                locked_amount: 0,
                last_deposit_ts: 0,
            },
        );
    }
    Ok(())
}

} // verus!
