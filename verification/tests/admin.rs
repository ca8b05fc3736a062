use solana_lottery_program::{
    burn_nft, init_address_manager, init_config, init_rank_address_manager, lottery,
    transfer_token_from_pool, transfer_token_to_pool, AccountManager, BurnNft, ClaimErrorCode,
    Clock, Config, GlobalConfig, Identity, InitAddressManager, InitConfig,
    InitRankAddressManager, Lottery, StakeErrorCode, TokenAccount,
};

fn who(byte: u8) -> Identity {
    Identity { bytes: [byte; 32] }
}

fn bootstrap() -> InitConfig {
    InitConfig { global_config: None, global_account: who(10), signer: who(42), admin: who(42) }
}

fn pool(amount: u64) -> TokenAccount {
    TokenAccount { key: who(9), mint: who(8), owner: who(10), amount }
}

#[test]
fn init_config_writes_the_configuration() {
    let mut ctx = bootstrap();
    assert_eq!(init_config(&mut ctx, who(7), who(8), 25), Ok(()));
    let config = ctx.global_config.unwrap();
    assert_eq!(config.signer_address.bytes, [7; 32]);
    assert_eq!(config.token_mint_address.bytes, [8; 32]);
    assert_eq!(config.lottery_fees, 25);
    assert_eq!(ctx.signer.bytes, [42; 32]);
    assert_eq!(ctx.admin.bytes, [42; 32]);
    assert_eq!(ctx.global_account.bytes, [10; 32]);
}

#[test]
fn init_config_by_anyone_else_fails_with_not_signer() {
    let mut ctx = bootstrap();
    ctx.signer = who(43);
    assert_eq!(init_config(&mut ctx, who(7), who(8), 25), Err(StakeErrorCode::NotSigner));
    assert!(ctx.global_config.is_none());
    let mut near = [42u8; 32];
    near[31] = 43;
    ctx.signer = Identity { bytes: near };
    assert_eq!(init_config(&mut ctx, who(7), who(8), 25), Err(StakeErrorCode::NotSigner));
    assert!(ctx.global_config.is_none());
}

#[test]
fn init_config_twice_fails_with_already_inited() {
    let mut ctx = bootstrap();
    assert_eq!(init_config(&mut ctx, who(7), who(8), 25), Ok(()));
    assert_eq!(init_config(&mut ctx, who(1), who(2), 3), Err(StakeErrorCode::AlreadyInited));
    let config = ctx.global_config.unwrap();
    assert_eq!(config.signer_address.bytes, [7; 32]);
    assert_eq!(config.token_mint_address.bytes, [8; 32]);
    assert_eq!(config.lottery_fees, 25);
    // Also for someone who is not the administrator.
    ctx.signer = who(43);
    assert_eq!(init_config(&mut ctx, who(1), who(2), 3), Err(StakeErrorCode::AlreadyInited));
}

#[test]
fn init_config_with_a_null_identity_fails_with_zero_address() {
    let mut ctx = bootstrap();
    assert_eq!(init_config(&mut ctx, who(0), who(8), 25), Err(StakeErrorCode::ZeroAddressError));
    assert!(ctx.global_config.is_none());
    assert_eq!(init_config(&mut ctx, who(7), who(0), 25), Err(StakeErrorCode::ZeroAddressError));
    assert!(ctx.global_config.is_none());
    // The administrator is checked first.
    ctx.signer = who(43);
    assert_eq!(init_config(&mut ctx, who(0), who(0), 25), Err(StakeErrorCode::NotSigner));
    // A fee of zero is a fee.
    ctx.signer = who(42);
    assert_eq!(init_config(&mut ctx, who(7), who(8), 0), Ok(()));
}

#[test]
fn init_address_manager_starts_at_zero_and_never_resets() {
    let mut ctx = InitAddressManager { payer: who(1), address_manager: None };
    assert_eq!(init_address_manager(&mut ctx), Ok(()));
    assert_eq!(ctx.address_manager, Some(AccountManager { nonce: 0 }));
    ctx.address_manager = Some(AccountManager { nonce: 12 });
    assert_eq!(init_address_manager(&mut ctx), Err(StakeErrorCode::AlreadyInited));
    assert_eq!(ctx.address_manager, Some(AccountManager { nonce: 12 }));
    assert_eq!(ctx.payer.bytes, [1; 32]);
}

#[test]
fn init_rank_address_manager_starts_at_zero_and_never_resets() {
    let mut ctx = InitRankAddressManager { payer: who(1), address_manager: None };
    assert_eq!(init_rank_address_manager(&mut ctx), Ok(()));
    assert_eq!(ctx.address_manager, Some(AccountManager { nonce: 0 }));
    ctx.address_manager = Some(AccountManager { nonce: 12 });
    assert_eq!(init_rank_address_manager(&mut ctx), Err(StakeErrorCode::AlreadyInited));
    assert_eq!(ctx.address_manager, Some(AccountManager { nonce: 12 }));
}

#[test]
fn transfer_from_pool_debits_the_pool() {
    let mut account = pool(1000);
    let transfer = transfer_token_from_pool(&mut account, who(2), 250, &who(10), 254).unwrap();
    assert_eq!(account.amount, 750);
    assert_eq!(transfer.from.bytes, [9; 32]);
    assert_eq!(transfer.to.bytes, [2; 32]);
    assert_eq!(transfer.authority.bytes, [10; 32]);
    assert_eq!(transfer.amount, 250);
    assert_eq!(transfer.signer_bump, Some(254));
    assert_eq!(account.key.bytes, [9; 32]);
    assert_eq!(account.mint.bytes, [8; 32]);
    assert_eq!(account.owner.bytes, [10; 32]);
}

#[test]
fn transfer_from_pool_boundary() {
    let mut account = pool(1000);
    assert!(transfer_token_from_pool(&mut account, who(2), 1000, &who(10), 1).is_ok());
    assert_eq!(account.amount, 0);
    assert!(transfer_token_from_pool(&mut account, who(2), 0, &who(10), 1).is_ok());
    assert_eq!(account.amount, 0);
    let mut account = pool(1000);
    let res = transfer_token_from_pool(&mut account, who(2), 1001, &who(10), 1);
    assert_eq!(res.unwrap_err(), ClaimErrorCode::InsufficientBalance);
    assert_eq!(account.amount, 1000);
}

#[test]
fn transfer_to_pool_moves_the_amount() {
    let mut holder = TokenAccount { key: who(20), mint: who(8), owner: who(1), amount: 70 };
    let mut account = pool(1000);
    let transfer = transfer_token_to_pool(&mut holder, &mut account, 50, who(1)).unwrap();
    assert_eq!(holder.amount, 20);
    assert_eq!(account.amount, 1050);
    assert_eq!(transfer.from.bytes, [20; 32]);
    assert_eq!(transfer.to.bytes, [9; 32]);
    assert_eq!(transfer.authority.bytes, [1; 32]);
    assert_eq!(transfer.amount, 50);
    assert_eq!(transfer.signer_bump, None);
    assert_eq!(holder.key.bytes, [20; 32]);
    assert_eq!(holder.owner.bytes, [1; 32]);
    assert_eq!(account.key.bytes, [9; 32]);
    assert_eq!(account.owner.bytes, [10; 32]);
}

#[test]
fn transfer_to_pool_holder_boundary() {
    let mut holder = TokenAccount { key: who(20), mint: who(8), owner: who(1), amount: 70 };
    let mut account = pool(1000);
    let res = transfer_token_to_pool(&mut holder, &mut account, 71, who(1));
    assert_eq!(res.unwrap_err(), ClaimErrorCode::InsufficientBalance);
    assert_eq!(holder.amount, 70);
    assert_eq!(account.amount, 1000);
    assert!(transfer_token_to_pool(&mut holder, &mut account, 70, who(1)).is_ok());
    assert_eq!(holder.amount, 0);
    assert_eq!(account.amount, 1070);
    assert!(transfer_token_to_pool(&mut holder, &mut account, 0, who(1)).is_ok());
    assert_eq!(holder.amount, 0);
    assert_eq!(account.amount, 1070);
}

#[test]
fn transfer_to_pool_pool_boundary() {
    let mut holder = TokenAccount { key: who(20), mint: who(8), owner: who(1), amount: 70 };
    let mut account = pool(u64::MAX - 69);
    let res = transfer_token_to_pool(&mut holder, &mut account, 70, who(1));
    assert_eq!(res.unwrap_err(), ClaimErrorCode::InvalidAmount);
    assert_eq!(holder.amount, 70);
    assert_eq!(account.amount, u64::MAX - 69);
    assert!(transfer_token_to_pool(&mut holder, &mut account, 69, who(1)).is_ok());
    assert_eq!(holder.amount, 1);
    assert_eq!(account.amount, u64::MAX);
    // The holder's balance is looked at first.
    let res = transfer_token_to_pool(&mut holder, &mut account, 2, who(1));
    assert_eq!(res.unwrap_err(), ClaimErrorCode::InsufficientBalance);
}

fn entry_accounts(fee: u64, holder_balance: u64, pool_balance: u64) -> Lottery {
    Lottery {
        global_config: GlobalConfig {
            signer_address: who(7),
            token_mint_address: who(8),
            lottery_fees: fee,
        },
        global_account: who(10),
        token_mint: who(8),
        pool_token_account: pool(pool_balance),
        payer: who(1),
        user_token_account: TokenAccount {
            key: who(20),
            mint: who(8),
            owner: who(1),
            amount: holder_balance,
        },
        nft_mint: who(30),
        clock: Clock { slot: 123_456, unix_timestamp: 1_700_000_000 },
    }
}

#[test]
fn lottery_pays_the_fee_from_the_payer_into_the_pool() {
    let mut ctx = entry_accounts(25, 70, 1000);
    let entry = lottery(&mut ctx, String::from("ticket #1")).unwrap();
    assert_eq!(ctx.user_token_account.amount, 45);
    assert_eq!(ctx.pool_token_account.amount, 1025);
    assert_eq!(entry.transfers.len(), 1);
    assert_eq!(entry.transfers[0].from.bytes, [20; 32]);
    assert_eq!(entry.transfers[0].to.bytes, [9; 32]);
    assert_eq!(entry.transfers[0].authority.bytes, [1; 32]);
    assert_eq!(entry.transfers[0].amount, 25);
    assert_eq!(entry.transfers[0].signer_bump, None);
    assert_eq!(entry.event.payer.bytes, [1; 32]);
    assert_eq!(entry.event.nft_mint.bytes, [30; 32]);
    assert_eq!(entry.event.block_number, 123_456);
    assert_eq!(entry.event.nft_name, "ticket #1");
    assert_eq!(entry.event.lottery_fee, 25);
    // The configuration stays.
    assert_eq!(ctx.global_config.lottery_fees, 25);
    assert_eq!(ctx.global_config.signer_address.bytes, [7; 32]);

    let second = lottery(&mut ctx, String::new()).unwrap();
    assert_eq!(ctx.user_token_account.amount, 20);
    assert_eq!(ctx.pool_token_account.amount, 1050);
    assert_eq!(second.event.nft_name, "");
}

#[test]
fn lottery_refuses_a_payer_who_holds_less_than_the_fee() {
    let mut ctx = entry_accounts(5, 0, 10);
    let before = ctx;
    let res = lottery(&mut ctx, String::from("ticket"));
    assert_eq!(res.unwrap_err(), ClaimErrorCode::InsufficientBalance);
    assert_eq!(ctx, before);

    let mut ctx = entry_accounts(25, 24, 1000);
    let res = lottery(&mut ctx, String::from("ticket"));
    assert_eq!(res.unwrap_err(), ClaimErrorCode::InsufficientBalance);
    assert_eq!(ctx.user_token_account.amount, 24);
    assert_eq!(ctx.pool_token_account.amount, 1000);

    let mut ctx = entry_accounts(25, 25, 1000);
    assert!(lottery(&mut ctx, String::from("ticket")).is_ok());
    assert_eq!(ctx.user_token_account.amount, 0);
    assert_eq!(ctx.pool_token_account.amount, 1025);
}

#[test]
fn lottery_refuses_a_fee_that_the_pool_cannot_take() {
    let mut ctx = entry_accounts(25, 70, u64::MAX - 24);
    let before = ctx;
    let res = lottery(&mut ctx, String::from("ticket"));
    assert_eq!(res.unwrap_err(), ClaimErrorCode::InvalidAmount);
    assert_eq!(ctx, before);
    let mut ctx = entry_accounts(25, 70, u64::MAX - 25);
    assert!(lottery(&mut ctx, String::from("ticket")).is_ok());
    assert_eq!(ctx.pool_token_account.amount, u64::MAX);
}

#[test]
fn lottery_with_no_fee_moves_nothing() {
    let mut ctx = entry_accounts(0, 0, u64::MAX);
    let entry = lottery(&mut ctx, String::from("free")).unwrap();
    assert_eq!(ctx.user_token_account.amount, 0);
    assert_eq!(ctx.pool_token_account.amount, u64::MAX);
    assert_eq!(entry.transfers[0].amount, 0);
    assert_eq!(entry.event.lottery_fee, 0);
}

#[test]
fn burn_nft_records_the_time() {
    let ctx = BurnNft {
        payer: who(1),
        nft_mint: who(30),
        clock: Clock { slot: 5, unix_timestamp: 1_700_000_000 },
    };
    let event = burn_nft(&ctx, String::from("ticket #1"));
    assert_eq!(event.payer.bytes, [1; 32]);
    assert_eq!(event.nft_mint.bytes, [30; 32]);
    assert_eq!(event.timestamp, 1_700_000_000);
    assert_eq!(event.nft_name, "ticket #1");
    let before_epoch = BurnNft { clock: Clock { slot: 5, unix_timestamp: -2 }, ..ctx };
    assert_eq!(burn_nft(&before_epoch, String::new()).timestamp, u64::MAX - 1);
}

#[test]
fn config_accounts_are_empty() {
    assert_eq!(Config {}, Config {});
}

#[test]
fn error_messages() {
    assert_eq!(StakeErrorCode::NotSigner.message(), "the caller is not signer");
    assert_eq!(StakeErrorCode::InvalidRound.message(), "Invalid round");
    assert_eq!(StakeErrorCode::AlreadyInited.message(), "Already been initialized");
    assert_eq!(StakeErrorCode::SigVerificationFailed.message(), "Signature verification failed.");
    assert_eq!(StakeErrorCode::ZeroAddressError.message(), "ZeroAddressError");
    assert_eq!(ClaimErrorCode::InvalidAmount.message(), "Invalid Amount");
    assert_eq!(ClaimErrorCode::NotApproved.message(), "Not Approved");
    assert_eq!(ClaimErrorCode::SigVerificationFailed.message(), "Signature verification failed");
    assert_eq!(ClaimErrorCode::InsufficientBalance.message(), "Insufficient Balance");
    assert_eq!(ClaimErrorCode::InvalidTimestamp.message(), "Invalid Timestamp");
    assert_eq!(ClaimErrorCode::InvalidNonce.message(), "Invalid Nonce");
}

#[test]
fn check_and_advance_accepts_only_the_next_nonce() {
    let mut record = AccountManager { nonce: 0 };
    assert_eq!(record.check_and_advance(1), Ok(1));
    assert_eq!(record.nonce, 1);
    for refused in [0u64, 1, 3, u64::MAX] {
        assert_eq!(record.check_and_advance(refused), Err(ClaimErrorCode::InvalidNonce));
        assert_eq!(record.nonce, 1);
    }
    assert_eq!(record.check_and_advance(2), Ok(2));
    assert_eq!(record.nonce, 2);

    let mut last = AccountManager { nonce: u64::MAX - 1 };
    assert_eq!(last.check_and_advance(u64::MAX), Ok(u64::MAX));
    assert_eq!(last.check_and_advance(0), Err(ClaimErrorCode::InvalidNonce));
    assert_eq!(last.check_and_advance(u64::MAX), Err(ClaimErrorCode::InvalidNonce));
    assert_eq!(last.nonce, u64::MAX);
}
