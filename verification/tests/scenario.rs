use anchor_lang::prelude::Pubkey;
use presale::{
    claim_locked_wen, former_holders_config, init_user_account, initialize, purchase,
    withdraw_usdc, withdraw_wen, Address, Asset, AssetAccount, ClaimLockedWenToken,
    ConstraintError, DepositUsdcForWenToken, ErrorCode, FormerHoldersList, InitUserAccount,
    Initialize, PoolBumps, PresaleAccount, UserInfoAccount, WithdrawUSDC, WithdrawWenToken,
};


const DAY: i64 = 86400;

fn key(n: u8) -> Address {
    Address { bytes: [n; 32] }
}

fn program() -> Address {
    key(7)
}

fn inside(key: &Pubkey) -> Address {
    Address { bytes: key.to_bytes() }
}

struct World {
    pool_key: Address,
    pool: PresaleAccount,
    pool_usdc: AssetAccount,
    pool_wen: AssetAccount,
    usdc: Asset,
    wen: Asset,
    participant: Address,
    entry: UserInfoAccount,
    user_usdc: AssetAccount,
    user_wen: AssetAccount,
}

fn world() -> World {
    let id = Pubkey::new_from_array(program().bytes);
    let (record, record_bump) = Pubkey::find_program_address(&[b"SALE"], &id);
    let (usdc, usdc_bump) = Pubkey::find_program_address(&[b"SALE", b"pool_usdc"], &id);
    let (wen, wen_bump) = Pubkey::find_program_address(&[b"SALE", b"pool_wen"], &id);
    let bumps =
        PoolBumps { presale_account: record_bump, pool_usdc: usdc_bump, pool_wen: wen_bump };
    let mut creation = Initialize {
        presale_key: inside(&record),
        presale_account: None,
        presale_owner: key(1),
        usdc_mint: Asset { address: key(10), decimals: 6 },
        wen_mint: Asset { address: key(11), decimals: 9 },
        pool_usdc: AssetAccount {
            address: inside(&usdc),
            mint: key(10),
            owner: inside(&record),
            amount: 0,
        },
        pool_wen: AssetAccount {
            address: inside(&wen),
            mint: key(11),
            owner: inside(&record),
            amount: 1_000_000,
        },
    };
    assert_eq!(creation.validate(&program(), "SALE", &bumps), Ok(()));
    assert_eq!(initialize(&mut creation, "SALE".to_string(), bumps), Ok(()));

    let participant = key(2);
    let text = Pubkey::new_from_array(participant.bytes).to_string();
    let (a, b) = text.split_at(20);
    let (entry_key, entry_bump) =
        Pubkey::find_program_address(&[b"SALE", a.as_bytes(), b.as_bytes()], &id);
    let mut joining = InitUserAccount {
        user_key: inside(&entry_key),
        user_account: None,
        presale_account: creation.presale_account.unwrap(),
        user_authority: participant,
    };
    assert_eq!(joining.validate(&program(), entry_bump, a, b), Ok(()));
    assert_eq!(init_user_account(&mut joining, entry_bump, a.to_string(), b.to_string()), Ok(()));

    World {
        pool_key: creation.presale_key,
        pool: creation.presale_account.unwrap(),
        pool_usdc: creation.pool_usdc,
        pool_wen: creation.pool_wen,
        usdc: creation.usdc_mint,
        wen: creation.wen_mint,
        participant,
        entry: joining.user_account.unwrap(),
        user_usdc: AssetAccount { address: key(30), mint: key(10), owner: participant, amount: 500 },
        user_wen: AssetAccount { address: key(31), mint: key(11), owner: participant, amount: 0 },
    }
}

fn deposit(w: &mut World, amount: u64, now: i64) -> Result<u64, ErrorCode> {
    let mut ctx = DepositUsdcForWenToken {
        user_authority: w.participant,
        user_account: w.entry,
        user_usdc: w.user_usdc,
        usdc_mint: w.usdc,
        user_wen: w.user_wen,
        wen_mint: w.wen,
        presale_key: w.pool_key,
        presale_account: w.pool,
        pool_usdc: w.pool_usdc,
        pool_wen: w.pool_wen,
    };
    assert_eq!(ctx.validate(&program()), Ok(()));
    let settlement = purchase(&mut ctx, amount, now)?;
    assert_eq!(settlement.payment.amount, amount);
    w.entry = ctx.user_account;
    w.user_usdc = ctx.user_usdc;
    w.user_wen = ctx.user_wen;
    w.pool_usdc = ctx.pool_usdc;
    w.pool_wen = ctx.pool_wen;
    Ok(settlement.release.amount)
}

fn claim(w: &mut World, now: i64) -> Result<u64, ErrorCode> {
    let mut ctx = ClaimLockedWenToken {
        user_authority: w.participant,
        user_account: w.entry,
        user_wen: w.user_wen,
        wen_mint: w.wen,
        pool_wen: w.pool_wen,
        presale_key: w.pool_key,
        presale_account: w.pool,
    };
    assert_eq!(ctx.validate(&program()), Ok(()));
    let transfer = claim_locked_wen(&mut ctx, now)?;
    w.entry = ctx.user_account;
    w.user_wen = ctx.user_wen;
    w.pool_wen = ctx.pool_wen;
    Ok(transfer.amount)
}

#[test]
fn deposit_then_claim_after_thirty_days() {
    let mut w = world();
    assert_eq!(&w.pool.presale_title, b"SALE      ");

    let start: i64 = 1_700_000_000;
    assert_eq!(deposit(&mut w, 200, start), Ok(100));
    assert_eq!(w.user_wen.amount, 100);
    assert_eq!(w.entry.locked_amount, 100);
    assert_eq!(w.entry.deposit_amount, 200);
    assert_eq!(w.user_usdc.amount, 300);
    assert_eq!(w.pool_usdc.amount, 200);
    assert_eq!(w.pool_wen.amount, 999_900);

    assert_eq!(claim(&mut w, start + 30 * DAY - 1), Err(ErrorCode::NotMatured));
    assert_eq!(w.entry.locked_amount, 100);

    assert_eq!(claim(&mut w, start + 30 * DAY), Ok(100));
    assert_eq!(w.entry.locked_amount, 0);
    assert_eq!(w.entry.deposit_amount, 200);
    assert_eq!(w.user_wen.amount, 200);
    assert_eq!(w.pool_wen.amount, 999_800);

    assert_eq!(claim(&mut w, start + 30 * DAY), Err(ErrorCode::NothingToClaim));
    assert_eq!(claim(&mut w, start + 90 * DAY), Err(ErrorCode::NothingToClaim));
}

#[test]
fn a_second_deposit_delays_the_claim_of_the_first() {
    let mut w = world();
    assert_eq!(deposit(&mut w, 100, 0), Ok(50));
    assert_eq!(deposit(&mut w, 3, 29 * DAY), Ok(2));
    assert_eq!(w.entry.locked_amount, 51);
    assert_eq!(claim(&mut w, 30 * DAY), Err(ErrorCode::NotMatured));
    assert_eq!(claim(&mut w, 59 * DAY), Ok(51));
}

#[test]
fn owner_sweeps_both_pools_at_the_end() {
    let mut w = world();
    assert_eq!(deposit(&mut w, 200, 0), Ok(100));

    let mut usdc = WithdrawUSDC {
        user_authority: key(1),
        user_usdc: AssetAccount { address: key(40), mint: key(10), owner: key(1), amount: 0 },
        pool_usdc: w.pool_usdc,
        usdc_mint: w.usdc,
        presale_key: w.pool_key,
        presale_account: w.pool,
    };
    assert_eq!(usdc.validate(&program()), Ok(()));
    assert_eq!(withdraw_usdc(&mut usdc).unwrap().amount, 200);
    assert_eq!(usdc.pool_usdc.amount, 0);
    assert_eq!(usdc.user_usdc.amount, 200);
    assert_eq!(withdraw_usdc(&mut usdc), Err(ErrorCode::EmptyPool));

    let mut wen = WithdrawWenToken {
        user_authority: key(1),
        user_wen: AssetAccount { address: key(41), mint: key(11), owner: key(1), amount: 0 },
        pool_wen: w.pool_wen,
        wen_mint: w.wen,
        presale_key: w.pool_key,
        presale_account: w.pool,
    };
    assert_eq!(wen.validate(&program()), Ok(()));
    assert_eq!(withdraw_wen(&mut wen).unwrap().amount, 999_900);
    assert_eq!(wen.pool_wen.amount, 0);
    assert_eq!(withdraw_wen(&mut wen), Err(ErrorCode::EmptyPool));

    w.pool_wen = wen.pool_wen;
    assert_eq!(claim(&mut w, 30 * DAY), Err(ErrorCode::PoolUndercollateralized));
}

#[test]
fn participant_cannot_sweep_or_override() {
    let w = world();
    let mut usdc = WithdrawUSDC {
        user_authority: w.participant,
        user_usdc: w.user_usdc,
        pool_usdc: AssetAccount { amount: 10, ..w.pool_usdc },
        usdc_mint: w.usdc,
        presale_key: w.pool_key,
        presale_account: w.pool,
    };
    assert_eq!(usdc.validate(&program()), Ok(()));
    assert_eq!(withdraw_usdc(&mut usdc), Err(ErrorCode::Unauthorized));
    assert_eq!(usdc.pool_usdc.amount, 10);

    let mut holders = FormerHoldersList {
        user_authority: w.participant,
        user_account: w.entry,
        wen_mint: w.wen,
        presale_key: w.pool_key,
        presale_account: w.pool,
    };
    assert_eq!(holders.validate(&program()), Ok(()));
    assert_eq!(former_holders_config(&mut holders, 1_000_000, 0), Err(ErrorCode::Unauthorized));
    assert_eq!(holders.user_account.locked_amount, 0);
}

#[test]
fn former_holder_claims_what_the_owner_set() {
    let mut w = world();
    let mut holders = FormerHoldersList {
        user_authority: key(1),
        user_account: w.entry,
        wen_mint: w.wen,
        presale_key: w.pool_key,
        presale_account: w.pool,
    };
    assert_eq!(holders.validate(&program()), Ok(()));
    assert_eq!(former_holders_config(&mut holders, 777, 5 * DAY), Ok(()));
    w.entry = holders.user_account;
    assert_eq!(w.entry.deposit_amount, 0);
    assert_eq!(claim(&mut w, 34 * DAY), Err(ErrorCode::NotMatured));
    assert_eq!(claim(&mut w, 35 * DAY), Ok(777));
    assert_eq!(w.user_wen.amount, 777);
}

#[test]
fn records_of_another_caller_or_asset_are_rejected() {
    let w = world();
    let good = DepositUsdcForWenToken {
        user_authority: w.participant,
        user_account: w.entry,
        user_usdc: w.user_usdc,
        usdc_mint: w.usdc,
        user_wen: w.user_wen,
        wen_mint: w.wen,
        presale_key: w.pool_key,
        presale_account: w.pool,
        pool_usdc: w.pool_usdc,
        pool_wen: w.pool_wen,
    };
    assert_eq!(good.validate(&program()), Ok(()));

    let mut ctx = good;
    ctx.user_authority = key(3);
    assert_eq!(ctx.validate(&program()), Err(ConstraintError::Raw));
    let mut ctx = good;
    ctx.user_usdc.mint = key(11);
    assert_eq!(ctx.validate(&program()), Err(ConstraintError::Raw));
    let mut ctx = good;
    ctx.user_wen.owner = key(3);
    assert_eq!(ctx.validate(&program()), Err(ConstraintError::Raw));
    let mut ctx = good;
    ctx.presale_key = key(5);
    assert_eq!(ctx.validate(&program()), Err(ConstraintError::Seeds));
    let mut ctx = good;
    ctx.presale_account.usdc_mint = key(12);
    assert_eq!(ctx.validate(&program()), Err(ConstraintError::HasOne));
    let mut ctx = good;
    ctx.pool_usdc.address = w.pool_wen.address;
    assert_eq!(ctx.validate(&program()), Err(ConstraintError::Seeds));
    let mut ctx = good;
    ctx.pool_wen.address = w.pool_usdc.address;
    assert_eq!(ctx.validate(&program()), Err(ConstraintError::Seeds));
    assert_eq!(good.validate(&key(8)), Err(ConstraintError::Seeds));

    let claim = ClaimLockedWenToken {
        user_authority: w.participant,
        user_account: w.entry,
        user_wen: w.user_wen,
        wen_mint: w.wen,
        pool_wen: w.pool_wen,
        presale_key: w.pool_key,
        presale_account: w.pool,
    };
    let mut ctx = claim;
    ctx.user_account.owner = key(3);
    assert_eq!(ctx.validate(&program()), Err(ConstraintError::Raw));
    let mut ctx = claim;
    ctx.presale_account.wen_mint = key(12);
    assert_eq!(ctx.validate(&program()), Err(ConstraintError::HasOne));
    let mut ctx = claim;
    ctx.pool_wen.address = key(21);
    assert_eq!(ctx.validate(&program()), Err(ConstraintError::Seeds));
}
