use anchor_lang::solana_program::keccak;
use solana_lottery_program::{
    claim_rank, settle_claim_rank, AccountManager, ClaimErrorCode, ClaimRank, Clock, GlobalConfig,
    Identity, Instruction, TokenAccount,
};

const NOW: u64 = 1_700_000_000;
const ED25519_PROGRAM: [u8; 32] = [
    3, 125, 70, 214, 124, 147, 251, 190, 18, 249, 66, 143, 131, 141, 64, 255, 5, 112, 116, 73, 39,
    244, 138, 100, 252, 202, 112, 68, 128, 0, 0, 0,
];
const SIGNATURE: [u8; 64] = [0xCD; 64];
const AUTHORITY: [u8; 32] = [7; 32];

/// Keccak-256 of the message of the rank claim (nonce 1, amount 250, start
/// 1000, end 2000, timestamp NOW) on the accounts of `rank_accounts`.
const RANK_DIGEST: [u8; 32] = [
    102, 193, 51, 230, 103, 99, 219, 23, 239, 129, 206, 153, 89, 211, 205, 159, 105, 134, 133,
    100, 205, 142, 199, 68, 112, 47, 239, 50, 87, 183, 231, 30,
];

fn rank_id(byte: u8) -> Identity {
    Identity { bytes: [byte; 32] }
}

fn rank_filler() -> Instruction {
    Instruction { program_id: rank_id(0), accounts: Vec::new(), data: Vec::new() }
}

fn rank_signed_instruction(pubkey: &[u8; 32], signature: &[u8; 64], message: &[u8]) -> Instruction {
    let mut data = vec![1u8, 0, 48, 0, 255, 255, 16, 0, 255, 255, 112, 0];
    data.push((message.len() % 256) as u8);
    data.push((message.len() / 256) as u8);
    data.push(255);
    data.push(255);
    data.extend_from_slice(pubkey);
    data.extend_from_slice(signature);
    data.extend_from_slice(message);
    Instruction { program_id: Identity { bytes: ED25519_PROGRAM }, accounts: Vec::new(), data }
}

fn rank_message(
    ctx: &ClaimRank,
    nonce: u64,
    amount: u64,
    timestamp: u64,
    start_time: u64,
    end_time: u64,
) -> Vec<u8> {
    let mut msg = Vec::new();
    msg.extend_from_slice(&ctx.payer.bytes);
    msg.extend_from_slice(&ctx.output_one_account.bytes);
    msg.extend_from_slice(&start_time.to_le_bytes());
    msg.extend_from_slice(&end_time.to_le_bytes());
    msg.extend_from_slice(&amount.to_le_bytes());
    msg.extend_from_slice(&timestamp.to_le_bytes());
    msg.extend_from_slice(&nonce.to_le_bytes());
    msg
}

fn rank_accounts(balance: u64, stored_nonce: u64) -> ClaimRank {
    ClaimRank {
        payer: rank_id(1),
        global_account: rank_id(10),
        global_account_bump: 253,
        address_rank_manager: AccountManager { nonce: stored_nonce },
        global_config: GlobalConfig {
            signer_address: Identity { bytes: AUTHORITY },
            token_mint_address: rank_id(8),
            lottery_fees: 5,
        },
        token_mint: rank_id(8),
        pool_token_account: TokenAccount {
            key: rank_id(9),
            mint: rank_id(8),
            owner: rank_id(10),
            amount: balance,
        },
        output_one_account: rank_id(2),
        instructions: Vec::new(),
        clock: Clock { slot: 77, unix_timestamp: NOW as i64 },
    }
}

fn rank_signed_accounts(
    balance: u64,
    stored_nonce: u64,
    nonce: u64,
    amount: u64,
    timestamp: u64,
    start_time: u64,
    end_time: u64,
) -> ClaimRank {
    let mut ctx = rank_accounts(balance, stored_nonce);
    let msg = rank_message(&ctx, nonce, amount, timestamp, start_time, end_time);
    let digest = keccak::hash(&msg).to_bytes();
    ctx.instructions = vec![
        rank_filler(),
        rank_filler(),
        rank_signed_instruction(&AUTHORITY, &SIGNATURE, &digest),
    ];
    ctx
}

fn rank_unchanged(ctx: &ClaimRank, balance: u64, stored_nonce: u64) {
    assert_eq!(ctx.pool_token_account.amount, balance);
    assert_eq!(ctx.address_rank_manager.nonce, stored_nonce);
}

#[test]
fn claim_rank_pays_the_single_leg() {
    let mut ctx = rank_accounts(1000, 0);
    ctx.instructions = vec![
        rank_filler(),
        rank_filler(),
        rank_signed_instruction(&AUTHORITY, &SIGNATURE, &RANK_DIGEST),
    ];
    let settlement = claim_rank(&mut ctx, 1, 250, NOW, 1000, 2000, SIGNATURE).unwrap();
    rank_unchanged(&ctx, 750, 1);
    assert_eq!(settlement.transfers.len(), 1);
    let leg = settlement.transfers[0];
    assert_eq!(leg.from.bytes, [9; 32]);
    assert_eq!(leg.to.bytes, [2; 32]);
    assert_eq!(leg.authority.bytes, [10; 32]);
    assert_eq!(leg.amount, 250);
    assert_eq!(leg.signer_bump, Some(253));
    let event = settlement.event;
    assert_eq!(event.payer.bytes, [1; 32]);
    assert_eq!(event.nonce, 1);
    assert_eq!(event.amount, 250);
    assert_eq!(event.start_time, 1000);
    assert_eq!(event.end_time, 2000);
    assert_eq!(event.timestamp, NOW);
}

#[test]
fn claim_rank_does_not_hold_the_window_against_the_clock() {
    // A window that ended long ago, and one that ends before it starts.
    let mut ctx = rank_signed_accounts(1000, 0, 1, 10, NOW, 5, 6);
    assert!(claim_rank(&mut ctx, 1, 10, NOW, 5, 6, SIGNATURE).is_ok());
    let mut ctx = rank_signed_accounts(1000, 0, 1, 10, NOW, u64::MAX, 0);
    assert!(claim_rank(&mut ctx, 1, 10, NOW, u64::MAX, 0, SIGNATURE).is_ok());
}

#[test]
fn claim_rank_with_a_tampered_window_fails_signature_verification() {
    let mut ctx = rank_signed_accounts(1000, 0, 1, 250, NOW, 1000, 2000);
    let res = claim_rank(&mut ctx, 1, 250, NOW, 1001, 2000, SIGNATURE);
    assert_eq!(res.unwrap_err(), ClaimErrorCode::SigVerificationFailed);
    let res = claim_rank(&mut ctx, 1, 250, NOW, 1000, 2001, SIGNATURE);
    assert_eq!(res.unwrap_err(), ClaimErrorCode::SigVerificationFailed);
    // Start and end are not interchangeable.
    let res = claim_rank(&mut ctx, 1, 250, NOW, 2000, 1000, SIGNATURE);
    assert_eq!(res.unwrap_err(), ClaimErrorCode::SigVerificationFailed);
    rank_unchanged(&ctx, 1000, 0);
}

#[test]
fn claim_rank_with_a_tampered_amount_or_recipient_fails_signature_verification() {
    let mut ctx = rank_signed_accounts(1000, 0, 1, 250, NOW, 1000, 2000);
    let res = claim_rank(&mut ctx, 1, 251, NOW, 1000, 2000, SIGNATURE);
    assert_eq!(res.unwrap_err(), ClaimErrorCode::SigVerificationFailed);
    ctx.output_one_account.bytes[5] ^= 4;
    let res = claim_rank(&mut ctx, 1, 250, NOW, 1000, 2000, SIGNATURE);
    assert_eq!(res.unwrap_err(), ClaimErrorCode::SigVerificationFailed);
    rank_unchanged(&ctx, 1000, 0);
}

#[test]
fn claim_rank_solvency_boundary() {
    let mut ctx = rank_signed_accounts(250, 0, 1, 250, NOW, 1000, 2000);
    assert!(claim_rank(&mut ctx, 1, 250, NOW, 1000, 2000, SIGNATURE).is_ok());
    rank_unchanged(&ctx, 0, 1);
    let mut ctx = rank_signed_accounts(250, 0, 1, 251, NOW, 1000, 2000);
    let res = claim_rank(&mut ctx, 1, 251, NOW, 1000, 2000, SIGNATURE);
    assert_eq!(res.unwrap_err(), ClaimErrorCode::InsufficientBalance);
    rank_unchanged(&ctx, 250, 0);
}

#[test]
fn claim_rank_expiry_boundary() {
    let mut ctx = rank_signed_accounts(1000, 0, 1, 250, NOW - 300, 1000, 2000);
    assert!(claim_rank(&mut ctx, 1, 250, NOW - 300, 1000, 2000, SIGNATURE).is_ok());
    let mut ctx = rank_signed_accounts(1000, 0, 1, 250, NOW - 301, 1000, 2000);
    let res = claim_rank(&mut ctx, 1, 250, NOW - 301, 1000, 2000, SIGNATURE);
    assert_eq!(res.unwrap_err(), ClaimErrorCode::InvalidTimestamp);
    rank_unchanged(&ctx, 1000, 0);
}

#[test]
fn claim_rank_replay_and_skip_ahead_fail_with_invalid_nonce() {
    let mut ctx = rank_signed_accounts(1000, 0, 1, 250, NOW, 1000, 2000);
    assert!(claim_rank(&mut ctx, 1, 250, NOW, 1000, 2000, SIGNATURE).is_ok());
    let res = claim_rank(&mut ctx, 1, 250, NOW, 1000, 2000, SIGNATURE);
    assert_eq!(res.unwrap_err(), ClaimErrorCode::InvalidNonce);
    rank_unchanged(&ctx, 750, 1);

    let mut ctx = rank_signed_accounts(1000, 0, 2, 250, NOW, 1000, 2000);
    let res = claim_rank(&mut ctx, 2, 250, NOW, 1000, 2000, SIGNATURE);
    assert_eq!(res.unwrap_err(), ClaimErrorCode::InvalidNonce);
    rank_unchanged(&ctx, 1000, 0);
}

#[test]
fn claim_rank_does_not_accept_the_signature_of_a_standard_claim() {
    // The two classes sign different messages.
    let mut ctx = rank_accounts(1000, 0);
    let mut msg = Vec::new();
    msg.extend_from_slice(&[1u8; 32]);
    msg.extend_from_slice(&[2u8; 32]);
    msg.extend_from_slice(&[3u8; 32]);
    msg.extend_from_slice(&[4u8; 32]);
    for value in [1u64, 250, 0, 0, NOW, 1] {
        msg.extend_from_slice(&value.to_le_bytes());
    }
    let digest = keccak::hash(&msg).to_bytes();
    ctx.instructions = vec![
        rank_filler(),
        rank_filler(),
        rank_signed_instruction(&AUTHORITY, &SIGNATURE, &digest),
    ];
    let res = claim_rank(&mut ctx, 1, 250, NOW, 0, 0, SIGNATURE);
    assert_eq!(res.unwrap_err(), ClaimErrorCode::SigVerificationFailed);
}

#[test]
fn settle_claim_rank_takes_the_digest_as_given() {
    let mut ctx = rank_accounts(1000, 3);
    let digest = [0x11; 32];
    ctx.instructions = vec![
        rank_filler(),
        rank_filler(),
        rank_signed_instruction(&AUTHORITY, &SIGNATURE, &digest),
    ];
    let wrong = settle_claim_rank(&mut ctx, 4, 1000, NOW, 0, 0, &[0x12; 32], &SIGNATURE);
    assert_eq!(wrong.unwrap_err(), ClaimErrorCode::SigVerificationFailed);
    rank_unchanged(&ctx, 1000, 3);
    assert!(settle_claim_rank(&mut ctx, 4, 1000, NOW, 0, 0, &digest, &SIGNATURE).is_ok());
    rank_unchanged(&ctx, 0, 4);
}
