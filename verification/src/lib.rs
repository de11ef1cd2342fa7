//! Escrow-and-vesting engine of a token presale.
//!
//! Participants pay a stable-value token into a custody pool and receive a sale
//! token in exchange: half of every purchase at once, the rest after a fixed
//! maturity period. The crate holds the records, the rules that change them and
//! the derivation of the addresses under which they are kept.

pub mod accounts;
pub mod history;
pub mod identity;
pub mod setup;
pub mod state;
pub mod title;
pub mod vesting;

pub use crate::accounts::{
    ClaimLockedWenToken, ConstraintError, DepositUsdcForWenToken, FormerHoldersList,
    InitUserAccount, Initialize, WithdrawUSDC, WithdrawWenToken,
};
pub use crate::identity::Address;
pub use crate::setup::{init_user_account, initialize};
pub use crate::state::{
    Asset, AssetAccount, Authorization, ErrorCode, PoolBumps, PresaleAccount, Settlement,
    Transfer, UserInfoAccount,
};
pub use crate::title::TrimAsciiWhitespace;
pub use crate::vesting::{
    claim_locked_wen, former_holders_config, purchase, withdraw_usdc, withdraw_wen,
};
