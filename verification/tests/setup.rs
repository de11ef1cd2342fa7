use anchor_lang::prelude::Pubkey;
use presale::setup::fragments_match;
use presale::{
    init_user_account, initialize, Address, Asset, AssetAccount, ConstraintError, ErrorCode,
    InitUserAccount, Initialize, PoolBumps, PresaleAccount, UserInfoAccount,
};

fn key(n: u8) -> Address {
    Address { bytes: [n; 32] }
}

fn program() -> Address {
    key(7)
}

fn inside(key: &Pubkey) -> Address {
    Address { bytes: key.to_bytes() }
}

fn blank_pool() -> PresaleAccount {
    PresaleAccount {
        presale_title: [0; 10],
        bumps: PoolBumps::default(),
        presale_owner: key(0),
        usdc_mint: key(0),
        wen_mint: key(0),
        pool_usdc: key(0),
        pool_wen: key(0),
    }
}

fn old_entry() -> UserInfoAccount {
    UserInfoAccount { owner: key(3), bump: 1, deposit_amount: 9, locked_amount: 9, last_deposit_ts: 9 }
}

fn creation(title: &[u8], decimals: u8) -> (Initialize, PoolBumps) {
    let id = Pubkey::new_from_array(program().bytes);
    let (record, record_bump) = Pubkey::find_program_address(&[title], &id);
    let (usdc, usdc_bump) = Pubkey::find_program_address(&[title, b"pool_usdc"], &id);
    let (wen, wen_bump) = Pubkey::find_program_address(&[title, b"pool_wen"], &id);
    let ctx = Initialize {
        presale_key: inside(&record),
        presale_account: None,
        presale_owner: key(1),
        usdc_mint: Asset { address: key(10), decimals },
        wen_mint: Asset { address: key(11), decimals: 9 },
        pool_usdc: AssetAccount {
            address: inside(&usdc),
            mint: key(10),
            owner: inside(&record),
            amount: 0,
        },
        pool_wen: AssetAccount {
            address: inside(&wen),
            mint: key(11),
            owner: inside(&record),
            amount: 0,
        },
    };
    let bumps =
        PoolBumps { presale_account: record_bump, pool_usdc: usdc_bump, pool_wen: wen_bump };
    (ctx, bumps)
}

fn entry_creation(identity: [u8; 32]) -> (InitUserAccount, u8, String, String) {
    let id = Pubkey::new_from_array(program().bytes);
    let text = Pubkey::new_from_array(identity).to_string();
    let (a, b) = text.split_at(text.len() / 2);
    let (address, bump) = Pubkey::find_program_address(&[b"SALE", a.as_bytes(), b.as_bytes()], &id);
    let mut pool = blank_pool();
    pool.presale_title = *b"SALE      ";
    let ctx = InitUserAccount {
        user_key: inside(&address),
        user_account: None,
        presale_account: pool,
        user_authority: Address { bytes: identity },
    };
    (ctx, bump, a.to_string(), b.to_string())
}

#[test]
fn initialize_writes_the_pool_record() {
    let (mut ctx, bumps) = creation(b"SALE", 6);
    assert_eq!(ctx.validate(&program(), "SALE", &bumps), Ok(()));
    assert_eq!(initialize(&mut ctx, "SALE".to_string(), bumps), Ok(()));
    let record = ctx.presale_account.unwrap();
    assert_eq!(&record.presale_title, b"SALE      ");
    assert_eq!(record.bumps, bumps);
    assert_eq!(record.presale_owner, key(1));
    assert_eq!(record.usdc_mint, key(10));
    assert_eq!(record.wen_mint, key(11));
    assert_eq!(record.pool_usdc, ctx.pool_usdc.address);
    assert_eq!(record.pool_wen, ctx.pool_wen.address);
}

#[test]
fn initialize_takes_a_title_of_full_width_and_an_empty_one() {
    let (mut ctx, bumps) = creation(b"0123456789", 6);
    assert_eq!(initialize(&mut ctx, "0123456789".to_string(), bumps), Ok(()));
    assert_eq!(&ctx.presale_account.unwrap().presale_title, b"0123456789");
    let (mut ctx, bumps) = creation(b"", 6);
    assert_eq!(initialize(&mut ctx, String::new(), bumps), Ok(()));
    assert_eq!(&ctx.presale_account.unwrap().presale_title, b"          ");
}

#[test]
fn payment_asset_must_have_six_fractional_digits() {
    let (ctx, bumps) = creation(b"SALE", 9);
    assert_eq!(ctx.validate(&program(), "SALE", &bumps), Err(ConstraintError::Raw));
    let (ctx, bumps) = creation(b"SALE", 6);
    assert_eq!(ctx.validate(&program(), "SALE", &bumps), Ok(()));
}

#[test]
fn pool_must_be_at_the_address_of_its_title() {
    let (ctx, bumps) = creation(b"SALE", 6);
    assert_eq!(ctx.validate(&program(), "SOLD", &bumps), Err(ConstraintError::Seeds));
    assert_eq!(ctx.validate(&key(8), "SALE", &bumps), Err(ConstraintError::Seeds));
    assert_eq!(ctx.validate(&program(), " SALE ", &bumps), Ok(()));
    let mut moved = ctx;
    moved.pool_usdc.address = ctx.pool_wen.address;
    assert_eq!(moved.validate(&program(), "SALE", &bumps), Err(ConstraintError::Seeds));
    let mut moved = ctx;
    moved.pool_wen.address = ctx.pool_usdc.address;
    assert_eq!(moved.validate(&program(), "SALE", &bumps), Err(ConstraintError::Seeds));
}

#[test]
fn custody_accounts_must_belong_to_the_pool_record() {
    let (ctx, bumps) = creation(b"SALE", 6);
    let mut other = ctx;
    other.pool_usdc.owner = key(1);
    assert_eq!(other.validate(&program(), "SALE", &bumps), Err(ConstraintError::TokenOwner));
    let mut other = ctx;
    other.pool_wen.owner = key(1);
    assert_eq!(other.validate(&program(), "SALE", &bumps), Err(ConstraintError::TokenOwner));
    let mut other = ctx;
    other.pool_usdc.mint = key(11);
    assert_eq!(other.validate(&program(), "SALE", &bumps), Err(ConstraintError::TokenMint));
    let mut other = ctx;
    other.pool_wen.mint = key(10);
    assert_eq!(other.validate(&program(), "SALE", &bumps), Err(ConstraintError::TokenMint));
}

#[test]
fn init_user_account_writes_a_fresh_entry_for_the_caller() {
    let (mut ctx, bump, a, b) = entry_creation([3; 32]);
    assert_eq!(ctx.validate(&program(), bump, &a, &b), Ok(()));
    assert_eq!(init_user_account(&mut ctx, bump, a, b), Ok(()));
    let entry = ctx.user_account.unwrap();
    assert_eq!(entry.owner, Address { bytes: [3; 32] });
    assert_eq!(entry.bump, bump);
    assert_eq!(entry.deposit_amount, 0);
    assert_eq!(entry.locked_amount, 0);
    assert_eq!(entry.last_deposit_ts, 0);
}

#[test]
fn init_user_account_refuses_fragments_of_another_identity() {
    let (mut ctx, bump, a, b) = entry_creation([3; 32]);
    let before = ctx;
    let other = Pubkey::new_from_array([4; 32]).to_string();
    let (c, d) = other.split_at(other.len() / 2);
    assert_eq!(
        init_user_account(&mut ctx, bump, c.to_string(), d.to_string()),
        Err(ErrorCode::InitializationMismatch)
    );
    assert_eq!(
        init_user_account(&mut ctx, bump, b.clone(), a.clone()),
        Err(ErrorCode::InitializationMismatch)
    );
    assert_eq!(
        init_user_account(&mut ctx, bump, a.clone(), String::new()),
        Err(ErrorCode::InitializationMismatch)
    );
    assert_eq!(ctx, before);
}

#[test]
fn a_pool_is_created_once() {
    let (mut ctx, bumps) = creation(b"SALE", 6);
    assert_eq!(initialize(&mut ctx, "SALE".to_string(), bumps), Ok(()));
    assert_eq!(ctx.validate(&program(), "SALE", &bumps), Err(ConstraintError::InUse));
    let mut taken = ctx;
    taken.presale_account = Some(blank_pool());
    assert_eq!(taken.validate(&program(), "SALE", &bumps), Err(ConstraintError::InUse));
}

#[test]
fn an_entry_is_created_once() {
    let (mut ctx, bump, a, b) = entry_creation([3; 32]);
    ctx.user_account = Some(old_entry());
    assert_eq!(ctx.validate(&program(), bump, &a, &b), Err(ConstraintError::InUse));
    assert_eq!(init_user_account(&mut ctx, bump, a, b), Ok(()));
    assert_eq!(ctx.user_account, Some(old_entry()));
}

#[test]
fn fragments_may_be_cut_anywhere() {
    let (ctx, bump, a, b) = entry_creation([3; 32]);
    let text = format!("{}{}", a, b);
    for cut in 0..=text.len() {
        let (c, d) = text.split_at(cut);
        let mut each = ctx;
        assert_eq!(init_user_account(&mut each, bump, c.to_string(), d.to_string()), Ok(()));
    }
}

#[test]
fn entry_must_be_at_the_address_of_the_fragments() {
    let (ctx, bump, a, b) = entry_creation([3; 32]);
    assert_eq!(ctx.validate(&program(), bump, &b, &a), Err(ConstraintError::Seeds));
    assert_eq!(ctx.validate(&key(8), bump, &a, &b), Err(ConstraintError::Seeds));
    let whole = format!("{}{}", a, b);
    assert_eq!(ctx.validate(&program(), bump, &whole, ""), Err(ConstraintError::Seeds));
}

#[test]
fn fragments_match_compares_the_joined_text() {
    assert!(fragments_match("ab", "cd", &"abcd".to_string()));
    assert!(fragments_match("", "abcd", &"abcd".to_string()));
    assert!(!fragments_match("ab", "c", &"abcd".to_string()));
    assert!(!fragments_match("cd", "ab", &"abcd".to_string()));
}

#[test]
fn initialize_refuses_a_title_of_more_than_ten_bytes() {
    let (mut ctx, bumps) = creation(b"ELEVENBYTES", 6);
    let before = ctx;
    assert_eq!(
        initialize(&mut ctx, "ELEVENBYTES".to_string(), bumps),
        Err(ErrorCode::TitleTooLong)
    );
    assert_eq!(ctx, before);
    assert_eq!(ctx.presale_account, None);
    // ten characters, eleven bytes
    assert_eq!(
        initialize(&mut ctx, "123456789\u{e9}".to_string(), bumps),
        Err(ErrorCode::TitleTooLong)
    );
    assert_eq!(ctx, before);
}

#[test]
fn initialize_refuses_a_payment_asset_of_another_precision() {
    for decimals in [0u8, 5, 7, 9, 255] {
        let (mut ctx, bumps) = creation(b"SALE", decimals);
        let before = ctx;
        assert_eq!(
            initialize(&mut ctx, "SALE".to_string(), bumps),
            Err(ErrorCode::WrongPrecision)
        );
        assert_eq!(ctx, before);
        assert_eq!(ctx.presale_account, None);
    }
}

#[test]
fn initialize_refuses_a_second_creation_and_keeps_the_record() {
    let (mut ctx, bumps) = creation(b"SALE", 6);
    assert_eq!(initialize(&mut ctx, "SALE".to_string(), bumps), Ok(()));
    let created = ctx;
    let other = PoolBumps { presale_account: 1, pool_usdc: 2, pool_wen: 3 };
    ctx.presale_owner = key(9);
    let before = ctx;
    assert_eq!(
        initialize(&mut ctx, "SALE".to_string(), other),
        Err(ErrorCode::AlreadyInitialized)
    );
    assert_eq!(initialize(&mut ctx, "OTHER".to_string(), other), Err(ErrorCode::AlreadyInitialized));
    assert_eq!(ctx, before);
    assert_eq!(ctx.presale_account, created.presale_account);
    assert_eq!(ctx.presale_account.unwrap().presale_owner, key(1));
}

#[test]
fn initialize_names_the_first_rule_broken() {
    let (mut ctx, bumps) = creation(b"SALE", 9);
    ctx.presale_account = Some(blank_pool());
    assert_eq!(
        initialize(&mut ctx, "ELEVENBYTES".to_string(), bumps),
        Err(ErrorCode::TitleTooLong)
    );
    assert_eq!(
        initialize(&mut ctx, "SALE".to_string(), bumps),
        Err(ErrorCode::AlreadyInitialized)
    );
    ctx.presale_account = None;
    assert_eq!(initialize(&mut ctx, "SALE".to_string(), bumps), Err(ErrorCode::WrongPrecision));
}
