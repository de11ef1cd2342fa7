//! The closed set of records that each operation works on.
//!
//! An operation sees the pool record, at most one participant's entry, the
//! asset accounts it moves units between, and the identity of its caller.

use crate::identity::{
    custody_seeds, derives, derives_to, entry_seeds, participant_seeds, payment_pool_tag,
    payment_tag, pool_record_seeds, pool_seeds, sale_pool_tag, sale_tag, tagged_seeds, Address,
};
use crate::state::{
    Asset, AssetAccount, PoolBumps, PresaleAccount, UserInfoAccount, USDC_DECIMAL,
};
use vstd::prelude::*;
use vstd::string::StringSliceAdditionalSpecFns;

verus! {

/// What the creation of a pool works on.
#[derive(Clone, Copy, Debug, PartialEq, Eq)]
pub struct Initialize {
    /// Where the pool record is kept.
    pub presale_key: Address,
    /// The pool record kept there: none before the pool is created.
    pub presale_account: Option<PresaleAccount>,
    /// The caller, who becomes the pool's owner.
    pub presale_owner: Address,
    pub usdc_mint: Asset,
    pub wen_mint: Asset,
    pub pool_usdc: AssetAccount,
    pub pool_wen: AssetAccount,
}

/// What the creation of a participant's entry works on.
#[derive(Clone, Copy, Debug, PartialEq, Eq)]
pub struct InitUserAccount {
    /// Where the entry is kept.
    pub user_key: Address,
    /// The entry kept there: none before the participant has joined.
    pub user_account: Option<UserInfoAccount>,
    pub presale_account: PresaleAccount,
    /// The caller.
    pub user_authority: Address,
}

/// What a purchase works on.
#[derive(Clone, Copy, Debug, PartialEq, Eq)]
pub struct DepositUsdcForWenToken {
    /// The caller.
    pub user_authority: Address,
    pub user_account: UserInfoAccount,
    pub user_usdc: AssetAccount,
    pub usdc_mint: Asset,
    pub user_wen: AssetAccount,
    pub wen_mint: Asset,
    /// Where the pool record is kept.
    pub presale_key: Address,
    pub presale_account: PresaleAccount,
    pub pool_usdc: AssetAccount,
    pub pool_wen: AssetAccount,
}

/// What a claim works on.
#[derive(Clone, Copy, Debug, PartialEq, Eq)]
pub struct ClaimLockedWenToken {
    /// The caller.
    pub user_authority: Address,
    pub user_account: UserInfoAccount,
    pub user_wen: AssetAccount,
    pub wen_mint: Asset,
    pub pool_wen: AssetAccount,
    /// Where the pool record is kept.
    pub presale_key: Address,
    pub presale_account: PresaleAccount,
}

/// What a withdrawal of the payment asset works on.
#[derive(Clone, Copy, Debug, PartialEq, Eq)]
pub struct WithdrawUSDC {
    /// The caller.
    pub user_authority: Address,
    pub user_usdc: AssetAccount,
    pub pool_usdc: AssetAccount,
    pub usdc_mint: Asset,
    /// Where the pool record is kept.
    pub presale_key: Address,
    pub presale_account: PresaleAccount,
}

/// What a withdrawal of the sale asset works on.
#[derive(Clone, Copy, Debug, PartialEq, Eq)]
pub struct WithdrawWenToken {
    /// The caller.
    pub user_authority: Address,
    pub user_wen: AssetAccount,
    pub pool_wen: AssetAccount,
    pub wen_mint: Asset,
    /// Where the pool record is kept.
    pub presale_key: Address,
    pub presale_account: PresaleAccount,
}

/// What an override of a participant's locked balance works on.
#[derive(Clone, Copy, Debug, PartialEq, Eq)]
pub struct FormerHoldersList {
    /// The caller.
    pub user_authority: Address,
    /// The entry to rewrite: any participant's.
    pub user_account: UserInfoAccount,
    pub wen_mint: Asset,
    /// Where the pool record is kept.
    pub presale_key: Address,
    pub presale_account: PresaleAccount,
}

/// Why a set of records is not one that an operation may work on.
#[derive(Clone, Copy, Debug, PartialEq, Eq, Structural)]
pub enum ConstraintError {
    /// A record that is to be created exists already.
    InUse,
    /// A record or custody account is not at the address derived for it.
    Seeds,
    /// The asset passed is not the one the pool record names.
    HasOne,
    /// An entry or an asset account is not the caller's, an asset account
    /// holds another asset, or the payment asset has the wrong precision.
    Raw,
    /// A custody account holds another asset than the one it is for.
    TokenMint,
    /// A custody account can be spent by another than the pool record.
    TokenOwner,
}

/// Whether `key` is the address derived for the pool record `presale`.
pub open spec fn is_pool_record(presale: PresaleAccount, program: Address, key: Address) -> bool {
    derives_to(
        pool_record_seeds(presale.presale_title@, presale.bumps.presale_account),
        program,
        key,
    )
}

/// Whether `key` is the address derived for the payment-asset custody
/// account of the pool `presale`.
pub open spec fn is_payment_pool(presale: PresaleAccount, program: Address, key: Address) -> bool {
    derives_to(
        custody_seeds(presale.presale_title@, payment_pool_tag(), presale.bumps.pool_usdc),
        program,
        key,
    )
}

/// Whether `key` is the address derived for the sale-asset custody account
/// of the pool `presale`.
pub open spec fn is_sale_pool(presale: PresaleAccount, program: Address, key: Address) -> bool {
    derives_to(
        custody_seeds(presale.presale_title@, sale_pool_tag(), presale.bumps.pool_wen),
        program,
        key,
    )
}

/// Whether `account` is `owner`'s and holds the asset `mint`.
pub open spec fn held_by(account: AssetAccount, owner: Address, mint: Address) -> bool {
    account.owner == owner && account.mint == mint
}

/// Whether `key` is the address derived for the pool record `presale`.
pub fn at_pool_record(presale: &PresaleAccount, program: &Address, key: &Address) -> (r: bool)
    ensures
        r == is_pool_record(*presale, *program, *key),
{
    let seeds = pool_seeds(presale.presale_title.as_slice(), presale.bumps.presale_account);
    derives(&seeds, program, key)
}

/// Whether `key` is the address derived for the payment-asset custody
/// account of the pool `presale`.
pub fn at_payment_pool(presale: &PresaleAccount, program: &Address, key: &Address) -> (r: bool)
    ensures
        r == is_payment_pool(*presale, *program, *key),
{
    let seeds = tagged_seeds(
        presale.presale_title.as_slice(),
        payment_tag(),
        presale.bumps.pool_usdc,
    );
    derives(&seeds, program, key)
}

/// Whether `key` is the address derived for the sale-asset custody account
/// of the pool `presale`.
pub fn at_sale_pool(presale: &PresaleAccount, program: &Address, key: &Address) -> (r: bool)
    ensures
        r == is_sale_pool(*presale, *program, *key),
{
    let seeds = tagged_seeds(presale.presale_title.as_slice(), sale_tag(), presale.bumps.pool_wen);
    derives(&seeds, program, key)
}

/// Whether `account` is `owner`'s and holds the asset `mint`.
pub fn is_held_by(account: &AssetAccount, owner: &Address, mint: &Address) -> (r: bool)
    ensures
        r == held_by(*account, *owner, *mint),
{
    account.owner == *owner && account.mint == *mint
}

/// `Err` of the violation, if there is one.
pub open spec fn verdict(violation: Option<ConstraintError>) -> Result<(), ConstraintError> {
    match violation {
        Some(e) => Err(e),
        None => Ok(()),
    }
}

impl Initialize {
    /// The first rule that these records break for a pool that is to be
    /// created under `title` with the nonces `bumps`, if any: no pool record
    /// exists yet, the pool record and the two custody accounts are at their
    /// derived addresses, the payment asset has six fractional digits, and
    /// each custody account holds its asset and can be spent by the pool
    /// record alone.
    pub open spec fn violation(&self, program: Address, title: Seq<u8>, bumps: PoolBumps) -> Option<
        ConstraintError,
    > {
        if self.presale_account.is_some() {
            Some(ConstraintError::InUse)
        } else if !derives_to(pool_record_seeds(title, bumps.presale_account), program, self.presale_key) {
            Some(ConstraintError::Seeds)
        } else if self.usdc_mint.decimals != USDC_DECIMAL {
            Some(ConstraintError::Raw)
        } else if !derives_to(
            custody_seeds(title, payment_pool_tag(), bumps.pool_usdc),
            program,
            self.pool_usdc.address,
        ) {
            Some(ConstraintError::Seeds)
        } else if self.pool_usdc.mint != self.usdc_mint.address {
            Some(ConstraintError::TokenMint)
        } else if self.pool_usdc.owner != self.presale_key {
            Some(ConstraintError::TokenOwner)
        } else if !derives_to(
            custody_seeds(title, sale_pool_tag(), bumps.pool_wen),
            program,
            self.pool_wen.address,
        ) {
            Some(ConstraintError::Seeds)
        } else if self.pool_wen.mint != self.wen_mint.address {
            Some(ConstraintError::TokenMint)
        } else if self.pool_wen.owner != self.presale_key {
            Some(ConstraintError::TokenOwner)
        } else {
            None
        }
    }

    /// Tests the records against the rules of `violation`.
    pub fn validate(&self, program: &Address, presale_title: &str, bumps: &PoolBumps) -> (r: Result<
        (),
        ConstraintError,
    >)
        ensures
            r == verdict(self.violation(*program, presale_title.spec_bytes(), *bumps)),
    {
        if self.presale_account.is_some() {
            return Err(ConstraintError::InUse);
        }
        let title = presale_title.as_bytes();
        let record_seeds = pool_seeds(title, bumps.presale_account);
        if !derives(&record_seeds, program, &self.presale_key) {
            return Err(ConstraintError::Seeds);
        }
        if self.usdc_mint.decimals != USDC_DECIMAL {
            return Err(ConstraintError::Raw);
        }
        let payment_seeds = tagged_seeds(title, payment_tag(), bumps.pool_usdc);
        if !derives(&payment_seeds, program, &self.pool_usdc.address) {
            return Err(ConstraintError::Seeds);
        }
        if self.pool_usdc.mint != self.usdc_mint.address {
            return Err(ConstraintError::TokenMint);
        }
        if self.pool_usdc.owner != self.presale_key {
            return Err(ConstraintError::TokenOwner);
        }
        let sale_seeds = tagged_seeds(title, sale_tag(), bumps.pool_wen);
        if !derives(&sale_seeds, program, &self.pool_wen.address) {
            return Err(ConstraintError::Seeds);
        }
        if self.pool_wen.mint != self.wen_mint.address {
            return Err(ConstraintError::TokenMint);
        }
        if self.pool_wen.owner != self.presale_key {
            return Err(ConstraintError::TokenOwner);
        }
        Ok(())
    }
}

impl InitUserAccount {
    /// The first rule that these records break for an entry that is to be
    /// created with the nonce `bump` from the two fragments, if any: no entry
    /// exists yet, and the entry is at the address derived from the pool's
    /// title and the fragments.
    pub open spec fn violation(
        &self,
        program: Address,
        bump: u8,
        seed0: Seq<u8>,
        seed1: Seq<u8>,
    ) -> Option<ConstraintError> {
        if self.user_account.is_some() {
            Some(ConstraintError::InUse)
        } else if !derives_to(
            participant_seeds(self.presale_account.presale_title@, seed0, seed1, bump),
            program,
            self.user_key,
        ) {
            Some(ConstraintError::Seeds)
        } else {
            None
        }
    }

    /// Tests the records against the rules of `violation`.
    pub fn validate(&self, program: &Address, bump: u8, seed0: &str, seed1: &str) -> (r: Result<
        (),
        ConstraintError,
    >)
        ensures
            r == verdict(self.violation(*program, bump, seed0.spec_bytes(), seed1.spec_bytes())),
    {
        if self.user_account.is_some() {
            return Err(ConstraintError::InUse);
        }
        let seeds = entry_seeds(self.presale_account.presale_title.as_slice(), seed0, seed1, bump);
        if !derives(&seeds, program, &self.user_key) {
            return Err(ConstraintError::Seeds);
        }
        Ok(())
    }
}

impl DepositUsdcForWenToken {
    /// The first rule that these records break, if any: the entry and the
    /// caller's two asset accounts are the caller's, each account holds its
    /// asset, the pool record and the two custody accounts are at their
    /// derived addresses, and the payment asset is the pool's.
    pub open spec fn violation(&self, program: Address) -> Option<ConstraintError> {
        if self.user_account.owner != self.user_authority {
            Some(ConstraintError::Raw)
        } else if !held_by(self.user_usdc, self.user_authority, self.usdc_mint.address) {
            Some(ConstraintError::Raw)
        } else if !held_by(self.user_wen, self.user_authority, self.wen_mint.address) {
            Some(ConstraintError::Raw)
        } else if !is_pool_record(self.presale_account, program, self.presale_key) {
            Some(ConstraintError::Seeds)
        } else if self.presale_account.usdc_mint != self.usdc_mint.address {
            Some(ConstraintError::HasOne)
        } else if !is_payment_pool(self.presale_account, program, self.pool_usdc.address) {
            Some(ConstraintError::Seeds)
        } else if !is_sale_pool(self.presale_account, program, self.pool_wen.address) {
            Some(ConstraintError::Seeds)
        } else {
            None
        }
    }

    /// Tests the records against the rules of `violation`.
    pub fn validate(&self, program: &Address) -> (r: Result<(), ConstraintError>)
        ensures
            r == verdict(self.violation(*program)),
    {
        if self.user_account.owner != self.user_authority {
            return Err(ConstraintError::Raw);
        }
        if !is_held_by(&self.user_usdc, &self.user_authority, &self.usdc_mint.address) {
            return Err(ConstraintError::Raw);
        }
        if !is_held_by(&self.user_wen, &self.user_authority, &self.wen_mint.address) {
            return Err(ConstraintError::Raw);
        }
        if !at_pool_record(&self.presale_account, program, &self.presale_key) {
            return Err(ConstraintError::Seeds);
        }
        if self.presale_account.usdc_mint != self.usdc_mint.address {
            return Err(ConstraintError::HasOne);
        }
        if !at_payment_pool(&self.presale_account, program, &self.pool_usdc.address) {
            return Err(ConstraintError::Seeds);
        }
        if !at_sale_pool(&self.presale_account, program, &self.pool_wen.address) {
            return Err(ConstraintError::Seeds);
        }
        Ok(())
    }
}

impl ClaimLockedWenToken {
    /// The first rule that these records break, if any: the entry and the
    /// caller's asset account are the caller's, the account holds the sale
    /// asset, the custody account and the pool record are at their derived
    /// addresses, and the sale asset is the pool's.
    pub open spec fn violation(&self, program: Address) -> Option<ConstraintError> {
        if self.user_account.owner != self.user_authority {
            Some(ConstraintError::Raw)
        } else if !held_by(self.user_wen, self.user_authority, self.wen_mint.address) {
            Some(ConstraintError::Raw)
        } else if !is_sale_pool(self.presale_account, program, self.pool_wen.address) {
            Some(ConstraintError::Seeds)
        } else if !is_pool_record(self.presale_account, program, self.presale_key) {
            Some(ConstraintError::Seeds)
        } else if self.presale_account.wen_mint != self.wen_mint.address {
            Some(ConstraintError::HasOne)
        } else {
            None
        }
    }

    /// Tests the records against the rules of `violation`.
    pub fn validate(&self, program: &Address) -> (r: Result<(), ConstraintError>)
        ensures
            r == verdict(self.violation(*program)),
    {
        if self.user_account.owner != self.user_authority {
            return Err(ConstraintError::Raw);
        }
        if !is_held_by(&self.user_wen, &self.user_authority, &self.wen_mint.address) {
            return Err(ConstraintError::Raw);
        }
        if !at_sale_pool(&self.presale_account, program, &self.pool_wen.address) {
            return Err(ConstraintError::Seeds);
        }
        if !at_pool_record(&self.presale_account, program, &self.presale_key) {
            return Err(ConstraintError::Seeds);
        }
        if self.presale_account.wen_mint != self.wen_mint.address {
            return Err(ConstraintError::HasOne);
        }
        Ok(())
    }
}

impl WithdrawUSDC {
    /// The first rule that these records break, if any: the caller's asset
    /// account is the caller's and holds the payment asset, the custody
    /// account and the pool record are at their derived addresses, and the
    /// payment asset is the pool's.
    pub open spec fn violation(&self, program: Address) -> Option<ConstraintError> {
        if !held_by(self.user_usdc, self.user_authority, self.usdc_mint.address) {
            Some(ConstraintError::Raw)
        } else if !is_payment_pool(self.presale_account, program, self.pool_usdc.address) {
            Some(ConstraintError::Seeds)
        } else if !is_pool_record(self.presale_account, program, self.presale_key) {
            Some(ConstraintError::Seeds)
        } else if self.presale_account.usdc_mint != self.usdc_mint.address {
            Some(ConstraintError::HasOne)
        } else {
            None
        }
    }

    /// Tests the records against the rules of `violation`.
    pub fn validate(&self, program: &Address) -> (r: Result<(), ConstraintError>)
        ensures
            r == verdict(self.violation(*program)),
    {
        if !is_held_by(&self.user_usdc, &self.user_authority, &self.usdc_mint.address) {
            return Err(ConstraintError::Raw);
        }
        if !at_payment_pool(&self.presale_account, program, &self.pool_usdc.address) {
            return Err(ConstraintError::Seeds);
        }
        if !at_pool_record(&self.presale_account, program, &self.presale_key) {
            return Err(ConstraintError::Seeds);
        }
        if self.presale_account.usdc_mint != self.usdc_mint.address {
            return Err(ConstraintError::HasOne);
        }
        Ok(())
    }
}

impl WithdrawWenToken {
    /// The first rule that these records break, if any: the caller's asset
    /// account is the caller's and holds the sale asset, the custody account
    /// and the pool record are at their derived addresses, and the sale asset
    /// is the pool's.
    pub open spec fn violation(&self, program: Address) -> Option<ConstraintError> {
        if !held_by(self.user_wen, self.user_authority, self.wen_mint.address) {
            Some(ConstraintError::Raw)
        } else if !is_sale_pool(self.presale_account, program, self.pool_wen.address) {
            Some(ConstraintError::Seeds)
        } else if !is_pool_record(self.presale_account, program, self.presale_key) {
            Some(ConstraintError::Seeds)
        } else if self.presale_account.wen_mint != self.wen_mint.address {
            Some(ConstraintError::HasOne)
        } else {
            None
        }
    }

    /// Tests the records against the rules of `violation`.
    pub fn validate(&self, program: &Address) -> (r: Result<(), ConstraintError>)
        ensures
            r == verdict(self.violation(*program)),
    {
        if !is_held_by(&self.user_wen, &self.user_authority, &self.wen_mint.address) {
            return Err(ConstraintError::Raw);
        }
        if !at_sale_pool(&self.presale_account, program, &self.pool_wen.address) {
            return Err(ConstraintError::Seeds);
        }
        if !at_pool_record(&self.presale_account, program, &self.presale_key) {
            return Err(ConstraintError::Seeds);
        }
        if self.presale_account.wen_mint != self.wen_mint.address {
            return Err(ConstraintError::HasOne);
        }
        Ok(())
    }
}

impl FormerHoldersList {
    /// The first rule that these records break, if any: the pool record is
    /// at its derived address, and the sale asset is the pool's.
    pub open spec fn violation(&self, program: Address) -> Option<ConstraintError> {
        if !is_pool_record(self.presale_account, program, self.presale_key) {
            Some(ConstraintError::Seeds)
        } else if self.presale_account.wen_mint != self.wen_mint.address {
            Some(ConstraintError::HasOne)
        } else {
            None
        }
    }

    /// Tests the records against the rules of `violation`.
    pub fn validate(&self, program: &Address) -> (r: Result<(), ConstraintError>)
        ensures
            r == verdict(self.violation(*program)),
    {
        if !at_pool_record(&self.presale_account, program, &self.presale_key) {
            return Err(ConstraintError::Seeds);
        }
        if self.presale_account.wen_mint != self.wen_mint.address {
            return Err(ConstraintError::HasOne);
        }
        Ok(())
    }
}

} // verus!
