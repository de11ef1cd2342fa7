//! The records the escrow keeps, the accounts it moves assets between, and
//! the errors its operations give.

use crate::identity::Address;
use vstd::prelude::*;

verus! {

/// Fractional digits the payment asset must have.
pub const USDC_DECIMAL: u8 = 6;

/// Share of every deposit that is withheld until maturity, in hundredths.
pub const LOCK_RATE: u64 = 50;

/// What `LOCK_RATE` is a share of.
pub const DENOMINATOR: u64 = 100;

/// Seconds between the last activity on an entry and the moment its locked
/// balance may be claimed: thirty days.
pub const LOCK_DURATION: i64 = 30 * 86400;

/// The nonces of the three derived addresses of a pool, recorded when the pool
/// is created so that each derivation can be repeated without a search.
#[derive(Clone, Copy, Debug, Default, PartialEq, Eq, Structural)]
pub struct PoolBumps {
    /// Nonce of the pool record's own address.
    pub presale_account: u8,
    /// Nonce of the payment-asset custody account.
    pub pool_usdc: u8,
    /// Nonce of the sale-asset custody account.
    pub pool_wen: u8,
}

/// The pool record: one per presale.
#[derive(Clone, Copy, Debug, PartialEq, Eq)]
pub struct PresaleAccount {
    /// The title, padded with spaces to its full width.
    pub presale_title: [u8; 10],
    pub bumps: PoolBumps,
    /// The administrator, who alone may withdraw and override.
    pub presale_owner: Address,
    /// The payment asset.
    pub usdc_mint: Address,
    /// The sale asset.
    pub wen_mint: Address,
    /// The custody account of the payment asset.
    pub pool_usdc: Address,
    /// The custody account of the sale asset.
    pub pool_wen: Address,
}

/// The ledger entry of one participant in one pool.
#[derive(Clone, Copy, Debug, PartialEq, Eq)]
pub struct UserInfoAccount {
    /// The participant, who alone may deposit and claim against this entry.
    pub owner: Address,
    /// Nonce of this entry's own address.
    pub bump: u8,
    /// Payment asset deposited so far. Never decreases.
    pub deposit_amount: u64,
    /// Sale asset withheld until maturity.
    pub locked_amount: u64,
    /// Time of the last deposit, claim or override, in seconds.
    pub last_deposit_ts: i64,
}

/// An asset: its identity and the number of its fractional digits.
#[derive(Clone, Copy, Debug, PartialEq, Eq)]
pub struct Asset {
    pub address: Address,
    pub decimals: u8,
}

/// An account that holds units of one asset for one owner.
#[derive(Clone, Copy, Debug, PartialEq, Eq)]
pub struct AssetAccount {
    pub address: Address,
    /// The asset held.
    pub mint: Address,
    /// Who may spend from the account.
    pub owner: Address,
    /// Units held.
    pub amount: u64,
}

/// How a transfer is authorised.
#[derive(Clone, Copy, Debug, PartialEq, Eq, Structural)]
pub enum Authorization {
    /// By the signature of the source account's owner.
    Signature,
    /// By the pool record's derived signer: the program itself, on the
    /// strength of the seeds that derive the pool record's address.
    DerivedSigner,
}

/// An order to the asset transfer service: move `amount` units from one
/// account to another.
#[derive(Clone, Copy, Debug, PartialEq, Eq)]
pub struct Transfer {
    pub from: Address,
    pub to: Address,
    /// The identity in whose name the source is debited.
    pub authority: Address,
    pub amount: u64,
    pub authorization: Authorization,
}

/// The two legs of a purchase.
#[derive(Clone, Copy, Debug, PartialEq, Eq)]
pub struct Settlement {
    /// The payment asset, from the participant to the pool.
    pub payment: Transfer,
    /// The sale asset released at once, from the pool to the participant.
    pub release: Transfer,
}

/// Why an operation was refused.
#[derive(Clone, Copy, Debug, PartialEq, Eq, Structural)]
pub enum ErrorCode {
    /// The amount to deposit is zero.
    InvalidAmount,
    /// The participant holds less of the payment asset than the deposit.
    InsufficientPaymentAsset,
    /// The pool holds less of the sale asset than is to be released at once.
    InsufficientSaleAsset,
    /// The two identity fragments do not spell the caller's identity.
    InitializationMismatch,
    /// Nothing is locked.
    NothingToClaim,
    /// The maturity period has not passed.
    NotMatured,
    /// The pool holds less of the sale asset than the entry has locked.
    PoolUndercollateralized,
    /// The caller is not the pool's owner.
    Unauthorized,
    /// The custody account to be withdrawn holds nothing.
    EmptyPool,
    /// The title of the pool to be created is longer than the stored width.
    TitleTooLong,
    /// The pool to be created exists already.
    AlreadyInitialized,
    /// The payment asset does not have the fractional digits it must have.
    WrongPrecision,
}

impl ErrorCode {
    /// The message that goes with the error.
    pub fn message(&self) -> (r: &'static str)
        ensures
            r@ == self.message_text(),
    {
        match self {
            ErrorCode::InvalidAmount => "Invalid amount to spend",
            ErrorCode::InsufficientPaymentAsset => "Insufficient USDC",
            ErrorCode::InsufficientSaleAsset => "Insufficient wen tokens",
            ErrorCode::InitializationMismatch => "Initialize Stake Account Failed",
            ErrorCode::NothingToClaim => "Not enough to claim",
            ErrorCode::NotMatured => "Not able to claim",
            ErrorCode::PoolUndercollateralized => "Not enough wen tokens to back the claim",
            ErrorCode::Unauthorized => "You have no right to call this function",
            ErrorCode::EmptyPool => "Nothing to withdraw",
            ErrorCode::TitleTooLong => "Presale title is longer than ten bytes",
            ErrorCode::AlreadyInitialized => "Presale is initialized already",
            ErrorCode::WrongPrecision => "Payment token must have six decimals",
        }
    }

    /// The text of `message`.
    pub open spec fn message_text(&self) -> Seq<char> {
        match self {
            ErrorCode::InvalidAmount => "Invalid amount to spend"@,
            ErrorCode::InsufficientPaymentAsset => "Insufficient USDC"@,
            ErrorCode::InsufficientSaleAsset => "Insufficient wen tokens"@,
            ErrorCode::InitializationMismatch => "Initialize Stake Account Failed"@,
            ErrorCode::NothingToClaim => "Not enough to claim"@,
            ErrorCode::NotMatured => "Not able to claim"@,
            ErrorCode::PoolUndercollateralized => "Not enough wen tokens to back the claim"@,
            ErrorCode::Unauthorized => "You have no right to call this function"@,
            ErrorCode::EmptyPool => "Nothing to withdraw"@,
            ErrorCode::TitleTooLong => "Presale title is longer than ten bytes"@,
            ErrorCode::AlreadyInitialized => "Presale is initialized already"@,
            ErrorCode::WrongPrecision => "Payment token must have six decimals"@,
        }
    }
}

} // verus!
