//! What holds of a participant's entry over any run of purchases and claims.

use crate::accounts::{ClaimLockedWenToken, DepositUsdcForWenToken};
use crate::vesting::{
    after_claim, after_purchase, claim_fits, claim_refusal, purchase_fits, purchase_refusal,
};
use vstd::prelude::*;

verus! {

/// A request of a participant.
pub enum Request {
    /// A purchase of `amount` at time `now`.
    Purchase { amount: u64, now: i64 },
    /// A claim at time `now`.
    Claim { now: i64 },
}

/// The records that a claim works on, out of those of a purchase.
pub open spec fn claim_accounts(w: DepositUsdcForWenToken) -> ClaimLockedWenToken {
    ClaimLockedWenToken {
        user_authority: w.user_authority,
        user_account: w.user_account,
        user_wen: w.user_wen,
        wen_mint: w.wen_mint,
        pool_wen: w.pool_wen,
        presale_key: w.presale_key,
        presale_account: w.presale_account,
    }
}

/// The records of a purchase, with those that a claim has changed.
pub open spec fn with_claim(w: DepositUsdcForWenToken, c: ClaimLockedWenToken) -> DepositUsdcForWenToken {
    DepositUsdcForWenToken {
        user_account: c.user_account,
        user_wen: c.user_wen,
        pool_wen: c.pool_wen,
        ..w
    }
}

/// Whether a request is accepted on the records `w`.
pub open spec fn accepted(w: DepositUsdcForWenToken, request: Request) -> bool {
    match request {
        Request::Purchase { amount, now } => purchase_refusal(w, amount).is_none(),
        Request::Claim { now } => claim_refusal(claim_accounts(w), now).is_none(),
    }
}

/// Whether what a request raises stays within 64 bits, where the request is
/// accepted.
pub open spec fn within_limits(w: DepositUsdcForWenToken, request: Request) -> bool {
    accepted(w, request) ==> match request {
        Request::Purchase { amount, now } => purchase_fits(w, amount),
        Request::Claim { now } => claim_fits(claim_accounts(w)),
    }
}

/// The records after a request: changed as the operation says where it is
/// accepted, unchanged where it is refused.
pub open spec fn after_request(w: DepositUsdcForWenToken, request: Request) -> DepositUsdcForWenToken {
    if accepted(w, request) {
        match request {
            Request::Purchase { amount, now } => after_purchase(w, amount, now),
            Request::Claim { now } => with_claim(w, after_claim(claim_accounts(w), now)),
        }
    } else {
        w
    }
}

/// The records after a run of requests, served in order.
pub open spec fn after_requests(w: DepositUsdcForWenToken, requests: Seq<Request>) -> DepositUsdcForWenToken
    decreases requests.len(),
{
    if requests.len() == 0 {
        w
    } else {
        after_request(after_requests(w, requests.drop_last()), requests.last())
    }
}

/// Whether every request of a run stays within 64 bits when it is served.
pub open spec fn run_within_limits(w: DepositUsdcForWenToken, requests: Seq<Request>) -> bool
    decreases requests.len(),
{
    requests.len() == 0 || (run_within_limits(w, requests.drop_last()) && within_limits(
        after_requests(w, requests.drop_last()),
        requests.last(),
    ))
}

/// The sum of the amounts of the purchases of a run that were accepted.
pub open spec fn purchased(w: DepositUsdcForWenToken, requests: Seq<Request>) -> nat
    decreases requests.len(),
{
    if requests.len() == 0 {
        0
    } else {
        let before = after_requests(w, requests.drop_last());
        purchased(w, requests.drop_last()) + match requests.last() {
            Request::Purchase { amount, now } => if accepted(before, requests.last()) {
                amount as nat
            } else {
                0
            },
            Request::Claim { now } => 0,
        }
    }
}

/// Over any run of purchases and claims, in any order, the entry's
/// cumulative deposit grows by exactly the sum of the amounts of the accepted
/// purchases. Claims and refused requests leave it as it was, so it never
/// decreases.
pub proof fn lemma_deposits_accumulate(w: DepositUsdcForWenToken, requests: Seq<Request>)
    requires
        run_within_limits(w, requests),
    ensures
        after_requests(w, requests).user_account.deposit_amount == w.user_account.deposit_amount
            + purchased(w, requests),
        after_requests(w, requests).user_account.deposit_amount >= w.user_account.deposit_amount,
    decreases requests.len(),
{
    if requests.len() > 0 {
        lemma_deposits_accumulate(w, requests.drop_last());
    }
}

/// The locked balance of an entry changes only where a request is accepted:
/// a purchase raises it by the locked share, a claim sets it to zero.
pub proof fn lemma_locked_balance_moves(w: DepositUsdcForWenToken, request: Request)
    requires
        within_limits(w, request),
    ensures
        !accepted(w, request) ==> after_request(w, request) == w,
        accepted(w, request) ==> match request {
            Request::Purchase { amount, now } => after_request(w, request).user_account.locked_amount
                == w.user_account.locked_amount + amount / 2,
            Request::Claim { now } => after_request(w, request).user_account.locked_amount == 0,
        },
{
    match request {
        Request::Purchase { amount, now } => {
            crate::vesting::lemma_locked_share_is_half(amount);
        },
        Request::Claim { now } => {},
    }
}

} // verus!
