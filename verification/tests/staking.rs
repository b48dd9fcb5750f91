use ainft::error::AiNftError;
use ainft::ainft::{create_stake_account, stake_compute, unstake_compute};
use ainft::instructions::{CreateStakeAccount, StakeCompute, UnstakeCompute};
use ainft::program::{PaymentPolicy, Program};
use ainft::pubkey::Pubkey;
use ainft::state::{AiNft, ExecutionClient, Staker};
use ainft::token::{Account, Mint, TokenAccount};

fn key(n: u8) -> Pubkey {
    Pubkey::new_from_array([n; 32])
}

fn derived(seeds: &[&[u8]], program: &Pubkey) -> (Pubkey, u8) {
    let id = anchor_lang::prelude::Pubkey::new_from_array(program.to_bytes());
    let (address, bump) = anchor_lang::prelude::Pubkey::find_program_address(seeds, &id);
    (Pubkey::new_from_array(address.to_bytes()), bump)
}

fn program() -> Program {
    Program { program_id: key(200), payment_policy: PaymentPolicy::ChargeAtSend }
}

struct World {
    registry: Account<AiNft>,
    client: Account<ExecutionClient>,
    vault: TokenAccount,
    claim_mint: Mint,
    staker: Pubkey,
    staker_compute: TokenAccount,
    staker_claims: TokenAccount,
    position_key: Pubkey,
    position_bump: u8,
}

fn world(total_compute: u64, total_staked: u64) -> World {
    let program = program();
    let compute_mint = key(1);
    let operator = key(2);
    let staker = key(3);
    let (registry_key, registry_bump) = derived(&[b"app_ainft"], &program.program_id);
    let (client_key, client_bump) = derived(
        &[b"execution_client", &registry_key.to_bytes(), &operator.to_bytes()],
        &program.program_id,
    );
    let (position_key, position_bump) = derived(
        &[b"staker", &client_key.to_bytes(), &staker.to_bytes()],
        &program.program_id,
    );
    let client = ExecutionClient {
        ai_nft: registry_key,
        authority: operator,
        compute_token_address: key(10),
        gas: 1_000,
        compute_mint,
        liquid_staking_token_mint: key(11),
        stake_pool_token_account: key(12),
        total_compute,
        total_staked,
        total_processed: 0,
        staker_fee_share: 50,
        active: true,
        bump: [client_bump],
        supported_message_types: vec!["text".to_string()],
    };
    World {
        registry: Account {
            key: registry_key,
            data: AiNft { authority: key(4), compute_mint, bump: [registry_bump] },
        },
        client: Account { key: client_key, data: client },
        vault: TokenAccount { key: key(12), mint: compute_mint, owner: registry_key, amount: total_compute },
        claim_mint: Mint {
            key: key(11),
            mint_authority: Some(client_key),
            supply: total_staked,
            decimals: 9,
        },
        staker,
        staker_compute: TokenAccount { key: key(13), mint: compute_mint, owner: staker, amount: 1_000_000 },
        staker_claims: TokenAccount { key: key(14), mint: key(11), owner: staker, amount: 0 },
        position_key,
        position_bump,
    }
}

fn stake_ctx(w: &World, position: Option<Staker>) -> StakeCompute {
    StakeCompute {
        ai_nft: w.registry.clone(),
        execution_client: w.client.clone(),
        stake_pool_token_account: w.vault,
        liquid_staking_token_mint: w.claim_mint,
        authority_compute_account: w.staker_compute,
        authority_liquid_staking_token_account: w.staker_claims,
        staker_account: Account { key: w.position_key, data: position },
        staker_bump: w.position_bump,
        authority: w.staker,
    }
}

fn unstake_ctx(w: &World, position: Option<Staker>) -> UnstakeCompute {
    UnstakeCompute {
        ai_nft: w.registry.clone(),
        execution_client: w.client.clone(),
        liquid_staking_token_mint: w.claim_mint,
        staker_account: Account { key: w.position_key, data: position },
        stake_pool_token_account: w.vault,
        authority_compute_account: w.staker_compute,
        authority_liquid_staking_token_account: w.staker_claims,
        authority: w.staker,
    }
}

fn position(w: &World, amount: u64) -> Staker {
    Staker::new(w.staker, w.client.key, amount, w.position_bump, 7)
}

#[test]
fn first_stake_into_empty_pool_mints_one_for_one() {
    let w = world(0, 0);
    let mut ctx = stake_ctx(&w, None);
    let receipt = stake_compute(&mut ctx, &program(), 1000, 5).unwrap();
    assert_eq!(receipt.mint_to.amount, 1000);
    assert_eq!(receipt.transfer.amount, 1000);
    assert_eq!(ctx.execution_client.data.total_compute, 1000);
    assert_eq!(ctx.execution_client.data.total_staked, 1000);
    let staker = ctx.staker_account.data.clone().unwrap();
    assert_eq!(staker.amount, 1000);
    assert_eq!(staker.last_stake_epoch, 5);
    assert_eq!(staker.authority, w.staker);
    assert_eq!(staker.execution_client, w.client.key);
    assert_eq!(staker.unstaking_epoch, None);
    assert_eq!(staker.total_rewards_claimed, 0);
    assert_eq!(staker.bump, w.position_bump);
}

#[test]
fn second_stake_at_even_rate_mints_the_amount() {
    let w = world(1000, 1000);
    let mut ctx = stake_ctx(&w, Some(position(&w, 1000)));
    let receipt = stake_compute(&mut ctx, &program(), 500, 9).unwrap();
    assert_eq!(receipt.mint_to.amount, 500);
    assert_eq!(ctx.execution_client.data.total_compute, 1500);
    assert_eq!(ctx.execution_client.data.total_staked, 1500);
    let staker = ctx.staker_account.data.clone().unwrap();
    assert_eq!(staker.amount, 1500);
    assert_eq!(staker.last_stake_epoch, 9);
}

#[test]
fn stake_orders_transfer_and_mint_with_the_right_parties() {
    let w = world(1000, 1000);
    let mut ctx = stake_ctx(&w, None);
    let receipt = stake_compute(&mut ctx, &program(), 500, 9).unwrap();
    assert_eq!(receipt.transfer.from, w.staker_compute.key);
    assert_eq!(receipt.transfer.to, w.vault.key);
    assert_eq!(receipt.transfer.authority.account(), w.staker);
    assert!(!receipt.transfer.authority.is_derived());
    assert!(receipt.transfer.authority.signer_seeds().is_empty());
    assert_eq!(receipt.mint_to.mint, w.claim_mint.key);
    assert_eq!(receipt.mint_to.to, w.staker_claims.key);
    assert_eq!(receipt.mint_to.authority.account(), w.client.key);
    assert!(receipt.mint_to.authority.is_derived());
    let seeds = receipt.mint_to.authority.signer_seeds();
    assert_eq!(seeds.len(), 4);
    assert_eq!(seeds[0], b"execution_client".to_vec());
    assert_eq!(seeds[1], w.registry.key.to_bytes().to_vec());
    assert_eq!(seeds[2], w.client.data.authority.to_bytes().to_vec());
    assert_eq!(seeds[3], w.client.data.bump.to_vec());
    assert_eq!(receipt.event.execution_client, w.client.key);
    assert_eq!(receipt.event.staker, w.staker);
    assert_eq!(receipt.event.compute_amount, 500);
    assert_eq!(receipt.event.staked_amount, 500);
    assert_eq!(receipt.event.exchange_rate, Some(1_000_000_000));
}

#[test]
fn stake_rounds_minted_claims_down() {
    // 3000 credits against 1000 claims: 100 credits mint floor(100 * 1000 / 3000) = 33.
    let w = world(3000, 1000);
    let mut ctx = stake_ctx(&w, None);
    let receipt = stake_compute(&mut ctx, &program(), 100, 1).unwrap();
    assert_eq!(receipt.mint_to.amount, 33);
    assert_eq!(ctx.execution_client.data.total_compute, 3100);
    assert_eq!(ctx.execution_client.data.total_staked, 1033);
    assert_eq!(receipt.event.exchange_rate, Some(3_000_968_054));
}

#[test]
fn small_stake_may_mint_nothing() {
    let w = world(3000, 1000);
    let mut ctx = stake_ctx(&w, None);
    let receipt = stake_compute(&mut ctx, &program(), 2, 1).unwrap();
    assert_eq!(receipt.mint_to.amount, 0);
    assert_eq!(ctx.execution_client.data.total_compute, 3002);
    assert_eq!(ctx.execution_client.data.total_staked, 1000);
}

#[test]
fn stake_of_zero_is_refused() {
    let w = world(1000, 1000);
    let mut ctx = stake_ctx(&w, None);
    let before = ctx.clone();
    let err = stake_compute(&mut ctx, &program(), 0, 1).unwrap_err();
    assert_eq!(err, AiNftError::InvalidStakeAmount);
    assert_eq!(ctx, before);
}

#[test]
fn stake_with_inactive_client_is_refused() {
    let mut w = world(1000, 1000);
    w.client.data.active = false;
    let mut ctx = stake_ctx(&w, None);
    let before = ctx.clone();
    let err = stake_compute(&mut ctx, &program(), 10, 1).unwrap_err();
    assert_eq!(err, AiNftError::ExecutionClientNotActive);
    assert_eq!(ctx, before);
}

#[test]
fn stake_checks_every_link() {
    let w = world(1000, 1000);

    let mut ctx = stake_ctx(&w, None);
    ctx.ai_nft.key = key(99);
    assert_eq!(stake_compute(&mut ctx, &program(), 10, 1).unwrap_err(), AiNftError::InvalidAiNft);

    let mut ctx = stake_ctx(&w, None);
    ctx.liquid_staking_token_mint.key = key(99);
    assert_eq!(
        stake_compute(&mut ctx, &program(), 10, 1).unwrap_err(),
        AiNftError::InvalidStakedMint
    );

    let mut ctx = stake_ctx(&w, None);
    ctx.stake_pool_token_account.key = key(99);
    assert_eq!(
        stake_compute(&mut ctx, &program(), 10, 1).unwrap_err(),
        AiNftError::InvalidComputeVault
    );

    let mut ctx = stake_ctx(&w, None);
    ctx.stake_pool_token_account.mint = key(99);
    assert_eq!(
        stake_compute(&mut ctx, &program(), 10, 1).unwrap_err(),
        AiNftError::InvalidComputeMint
    );

    let mut ctx = stake_ctx(&w, None);
    ctx.liquid_staking_token_mint.mint_authority = None;
    assert_eq!(
        stake_compute(&mut ctx, &program(), 10, 1).unwrap_err(),
        AiNftError::InvalidLiquidStakingMint
    );

    let mut ctx = stake_ctx(&w, None);
    ctx.liquid_staking_token_mint.mint_authority = Some(key(99));
    assert_eq!(
        stake_compute(&mut ctx, &program(), 10, 1).unwrap_err(),
        AiNftError::InvalidLiquidStakingMint
    );

    let mut ctx = stake_ctx(&w, None);
    ctx.authority_compute_account.mint = key(99);
    assert_eq!(
        stake_compute(&mut ctx, &program(), 10, 1).unwrap_err(),
        AiNftError::InvalidComputeMint
    );

    let mut ctx = stake_ctx(&w, None);
    ctx.authority_compute_account.owner = key(99);
    assert_eq!(
        stake_compute(&mut ctx, &program(), 10, 1).unwrap_err(),
        AiNftError::InvalidTokenOwner
    );

    let mut ctx = stake_ctx(&w, None);
    ctx.authority_liquid_staking_token_account.mint = key(99);
    assert_eq!(
        stake_compute(&mut ctx, &program(), 10, 1).unwrap_err(),
        AiNftError::InvalidStakedMint
    );

    let mut ctx = stake_ctx(&w, None);
    ctx.authority_liquid_staking_token_account.owner = key(99);
    assert_eq!(
        stake_compute(&mut ctx, &program(), 10, 1).unwrap_err(),
        AiNftError::InvalidTokenOwner
    );

    let mut other = position(&w, 5);
    other.authority = key(99);
    let mut ctx = stake_ctx(&w, Some(other));
    assert_eq!(stake_compute(&mut ctx, &program(), 10, 1).unwrap_err(), AiNftError::InvalidStaker);

    let mut other = position(&w, 5);
    other.execution_client = key(99);
    let mut ctx = stake_ctx(&w, Some(other));
    assert_eq!(stake_compute(&mut ctx, &program(), 10, 1).unwrap_err(), AiNftError::InvalidStaker);
}

#[test]
fn stake_refuses_a_client_at_a_wrong_address() {
    let w = world(1000, 1000);
    let mut ctx = stake_ctx(&w, None);
    ctx.execution_client.key = key(77);
    ctx.liquid_staking_token_mint.mint_authority = Some(key(77));
    let before = ctx.clone();
    let err = stake_compute(&mut ctx, &program(), 10, 1).unwrap_err();
    assert_eq!(err, AiNftError::InvalidExecutionClient);
    assert_eq!(ctx, before);

    // The same records under another program do not derive either.
    let mut ctx = stake_ctx(&w, None);
    let elsewhere = Program { program_id: key(201), payment_policy: PaymentPolicy::ChargeAtSend };
    let err = stake_compute(&mut ctx, &elsewhere, 10, 1).unwrap_err();
    assert_eq!(err, AiNftError::InvalidExecutionClient);

    // A wrong bump on record does not derive the client's address.
    let mut ctx = stake_ctx(&w, None);
    ctx.execution_client.data.bump = [w.client.data.bump[0].wrapping_sub(1)];
    let err = stake_compute(&mut ctx, &program(), 10, 1).unwrap_err();
    assert_eq!(err, AiNftError::InvalidExecutionClient);
}

#[test]
fn stake_refuses_a_new_position_at_a_wrong_address() {
    let w = world(1000, 1000);
    let mut ctx = stake_ctx(&w, None);
    ctx.staker_account.key = key(78);
    let before = ctx.clone();
    let err = stake_compute(&mut ctx, &program(), 10, 1).unwrap_err();
    assert_eq!(err, AiNftError::InvalidStaker);
    assert_eq!(ctx, before);
}

#[test]
fn stake_fails_on_overflow_and_on_an_undefined_rate() {
    let w = world(u64::MAX - 5, 1000);
    let mut ctx = stake_ctx(&w, None);
    let before = ctx.clone();
    assert_eq!(stake_compute(&mut ctx, &program(), 10, 1).unwrap_err(), AiNftError::Overflow);
    assert_eq!(ctx, before);

    // Claims outstanding against an empty vault: the rate is undefined.
    let w = world(0, 1000);
    let mut ctx = stake_ctx(&w, None);
    assert_eq!(stake_compute(&mut ctx, &program(), 10, 1).unwrap_err(), AiNftError::Overflow);

    // More claims than credits: the minted claims do not fit.
    let w = world(1, u64::MAX);
    let mut ctx = stake_ctx(&w, None);
    assert_eq!(stake_compute(&mut ctx, &program(), 2, 1).unwrap_err(), AiNftError::Overflow);

    // The position would run over.
    let w = world(1000, 1000);
    let mut ctx = stake_ctx(&w, Some(position(&w, u64::MAX)));
    assert_eq!(stake_compute(&mut ctx, &program(), 2, 1).unwrap_err(), AiNftError::Overflow);
}

#[test]
fn unstake_pays_out_at_the_pool_rate() {
    // 3000 credits against 1000 claims: 100 claims redeem 300 credits.
    let w = world(3000, 1000);
    let mut ctx = unstake_ctx(&w, Some(position(&w, 400)));
    let receipt = unstake_compute(&mut ctx, &program(), 100, 11).unwrap();
    assert_eq!(receipt.burn.amount, 100);
    assert_eq!(receipt.burn.mint, w.claim_mint.key);
    assert_eq!(receipt.burn.from, w.staker_claims.key);
    assert_eq!(receipt.burn.authority.account(), w.staker);
    assert!(!receipt.burn.authority.is_derived());
    assert_eq!(receipt.transfer.amount, 300);
    assert_eq!(receipt.transfer.from, w.vault.key);
    assert_eq!(receipt.transfer.to, w.staker_compute.key);
    assert_eq!(receipt.transfer.authority.account(), w.registry.key);
    assert!(receipt.transfer.authority.is_derived());
    let seeds = receipt.transfer.authority.signer_seeds();
    assert_eq!(seeds.len(), 2);
    assert_eq!(seeds[0], b"app_ainft".to_vec());
    assert_eq!(seeds[1], w.registry.data.bump.to_vec());
    assert_eq!(ctx.execution_client.data.total_compute, 2700);
    assert_eq!(ctx.execution_client.data.total_staked, 900);
    let staker = ctx.staker_account.data.clone().unwrap();
    assert_eq!(staker.amount, 300);
    assert_eq!(staker.last_stake_epoch, 11);
    assert_eq!(receipt.event.compute_amount, 300);
    assert_eq!(receipt.event.staked_amount, 100);
    assert_eq!(receipt.event.exchange_rate, Some(3_000_000_000));
}

#[test]
fn unstake_rounds_the_payout_down() {
    // 1000 credits against 3 claims: one claim redeems floor(1000 / 3) = 333.
    let w = world(1000, 3);
    let mut ctx = unstake_ctx(&w, Some(position(&w, 3)));
    let receipt = unstake_compute(&mut ctx, &program(), 1, 1).unwrap();
    assert_eq!(receipt.transfer.amount, 333);
    assert_eq!(ctx.execution_client.data.total_compute, 667);
    assert_eq!(ctx.execution_client.data.total_staked, 2);
}

#[test]
fn unstake_of_everything_empties_the_pool() {
    let w = world(1234, 1000);
    let mut ctx = unstake_ctx(&w, Some(position(&w, 1000)));
    let receipt = unstake_compute(&mut ctx, &program(), 1000, 1).unwrap();
    assert_eq!(receipt.transfer.amount, 1234);
    assert_eq!(ctx.execution_client.data.total_compute, 0);
    assert_eq!(ctx.execution_client.data.total_staked, 0);
    assert_eq!(receipt.event.exchange_rate, None);
}

#[test]
fn unstake_from_a_pool_without_claims_fails_closed() {
    let w = world(500, 0);
    let mut ctx = unstake_ctx(&w, Some(position(&w, 10)));
    let before = ctx.clone();
    let err = unstake_compute(&mut ctx, &program(), 1, 1).unwrap_err();
    assert_eq!(err, AiNftError::Overflow);
    assert_eq!(ctx, before);
    let err = unstake_compute(&mut ctx, &program(), 0, 1).unwrap_err();
    assert_eq!(err, AiNftError::Overflow);
}

#[test]
fn unstake_of_more_than_is_held_fails() {
    let w = world(3000, 1000);
    let mut ctx = unstake_ctx(&w, Some(position(&w, 50)));
    let before = ctx.clone();
    assert_eq!(unstake_compute(&mut ctx, &program(), 51, 1).unwrap_err(), AiNftError::Overflow);
    assert_eq!(ctx, before);
    let mut ctx = unstake_ctx(&w, Some(position(&w, 5000)));
    assert_eq!(
        unstake_compute(&mut ctx, &program(), 1001, 1).unwrap_err(),
        AiNftError::Overflow
    );
}

#[test]
fn unstake_checks_every_link() {
    let w = world(3000, 1000);
    let held = || Some(position(&w, 400));

    let mut ctx = unstake_ctx(&w, held());
    ctx.ai_nft.key = key(99);
    assert_eq!(unstake_compute(&mut ctx, &program(), 1, 1).unwrap_err(), AiNftError::InvalidAiNft);

    let mut ctx = unstake_ctx(&w, held());
    ctx.execution_client.data.active = false;
    assert_eq!(
        unstake_compute(&mut ctx, &program(), 1, 1).unwrap_err(),
        AiNftError::ExecutionClientNotActive
    );

    let mut ctx = unstake_ctx(&w, held());
    ctx.liquid_staking_token_mint.key = key(99);
    assert_eq!(
        unstake_compute(&mut ctx, &program(), 1, 1).unwrap_err(),
        AiNftError::InvalidStakedMint
    );

    let mut ctx = unstake_ctx(&w, held());
    ctx.stake_pool_token_account.mint = key(99);
    assert_eq!(
        unstake_compute(&mut ctx, &program(), 1, 1).unwrap_err(),
        AiNftError::InvalidComputeVault
    );

    let mut ctx = unstake_ctx(&w, held());
    ctx.stake_pool_token_account.key = key(99);
    assert_eq!(
        unstake_compute(&mut ctx, &program(), 1, 1).unwrap_err(),
        AiNftError::InvalidComputeVault
    );

    let mut ctx = unstake_ctx(&w, None);
    assert_eq!(
        unstake_compute(&mut ctx, &program(), 1, 1).unwrap_err(),
        AiNftError::StakeAccountNotFound
    );

    let mut other = position(&w, 400);
    other.authority = key(99);
    let mut ctx = unstake_ctx(&w, Some(other));
    assert_eq!(unstake_compute(&mut ctx, &program(), 1, 1).unwrap_err(), AiNftError::InvalidStaker);

    let mut ctx = unstake_ctx(&w, held());
    ctx.authority_compute_account.mint = key(99);
    assert_eq!(
        unstake_compute(&mut ctx, &program(), 1, 1).unwrap_err(),
        AiNftError::InvalidComputeMint
    );

    let mut ctx = unstake_ctx(&w, held());
    ctx.authority_compute_account.owner = key(99);
    assert_eq!(
        unstake_compute(&mut ctx, &program(), 1, 1).unwrap_err(),
        AiNftError::InvalidAuthority
    );

    let mut ctx = unstake_ctx(&w, held());
    ctx.authority_liquid_staking_token_account.mint = key(99);
    assert_eq!(
        unstake_compute(&mut ctx, &program(), 1, 1).unwrap_err(),
        AiNftError::InvalidStakedMint
    );

    let mut ctx = unstake_ctx(&w, held());
    ctx.authority_liquid_staking_token_account.owner = key(99);
    assert_eq!(
        unstake_compute(&mut ctx, &program(), 1, 1).unwrap_err(),
        AiNftError::InvalidAuthority
    );

    // A registry whose bump does not derive its address cannot sign for the vault.
    let mut ctx = unstake_ctx(&w, held());
    ctx.ai_nft.data.bump = [w.registry.data.bump[0].wrapping_sub(1)];
    assert_eq!(unstake_compute(&mut ctx, &program(), 1, 1).unwrap_err(), AiNftError::InvalidAiNft);
}

#[test]
fn stake_then_unstake_never_pays_back_more() {
    for (total_compute, total_staked, amount) in
        [(0u64, 0u64, 1000u64), (3000, 1000, 100), (1001, 1000, 7), (7, 3, 5), (1_000_000_007, 999_999_937, 123_456)]
    {
        let w = world(total_compute, total_staked);
        let mut ctx = stake_ctx(&w, None);
        let staked = stake_compute(&mut ctx, &program(), amount, 1).unwrap();
        let minted = staked.mint_to.amount;
        let mut after = world(total_compute, total_staked);
        after.client = ctx.execution_client.clone();
        let mut back = unstake_ctx(&after, ctx.staker_account.data.clone());
        let paid = unstake_compute(&mut back, &program(), minted, 2).unwrap().transfer.amount;
        assert!(paid <= amount, "{} credits came back for {}", paid, amount);
    }
}

#[test]
fn fees_earned_without_stakers_go_to_the_first_staker() {
    // Five credits of fees sit in a pool that has no claims outstanding.
    let w = world(5, 0);
    let mut ctx = stake_ctx(&w, None);
    let staked = stake_compute(&mut ctx, &program(), 10, 1).unwrap();
    assert_eq!(staked.mint_to.amount, 10);
    assert_eq!(ctx.execution_client.data.total_compute, 15);
    assert_eq!(ctx.execution_client.data.total_staked, 10);
    let mut after = world(5, 0);
    after.client = ctx.execution_client.clone();
    let mut back = unstake_ctx(&after, ctx.staker_account.data.clone());
    let paid = unstake_compute(&mut back, &program(), 10, 2).unwrap().transfer.amount;
    assert_eq!(paid, 15);
}

#[test]
fn exchange_rate_never_falls_across_stakes_and_redemptions() {
    let mut w = world(3000, 1000);
    let mut held = Some(position(&w, 1000));
    let mut rate = (3000u128, 1000u128);
    for (stake, amount) in [(true, 100u64), (false, 33), (true, 7), (false, 500), (true, 1), (false, 1)] {
        w.vault.amount = w.client.data.total_compute;
        if stake {
            let mut ctx = stake_ctx(&w, held.clone());
            stake_compute(&mut ctx, &program(), amount, 1).unwrap();
            w.client = ctx.execution_client;
            held = ctx.staker_account.data;
        } else {
            let mut ctx = unstake_ctx(&w, held.clone());
            unstake_compute(&mut ctx, &program(), amount, 1).unwrap();
            w.client = ctx.execution_client;
            held = ctx.staker_account.data;
        }
        let now = (w.client.data.total_compute as u128, w.client.data.total_staked as u128);
        assert!(rate.0 * now.1 <= now.0 * rate.1);
        rate = now;
    }
}

#[test]
fn create_stake_account_opens_an_empty_position() {
    let w = world(0, 0);
    let mut ctx = CreateStakeAccount {
        ai_nft: w.registry.clone(),
        execution_client: w.client.clone(),
        staker: Account { key: w.position_key, data: None },
        staker_bump: w.position_bump,
        compute_mint: w.registry.data.compute_mint,
        authority: w.staker,
    };
    let event = create_stake_account(&mut ctx, &program(), 42).unwrap();
    assert_eq!(event.authority, w.staker);
    assert_eq!(event.execution_client, w.client.key);
    assert_eq!(event.staker, w.position_key);
    assert_eq!(ctx.staker.data, Some(Staker::new(w.staker, w.client.key, 0, w.position_bump, 42)));

    let before = ctx.clone();
    let err = create_stake_account(&mut ctx, &program(), 43).unwrap_err();
    assert_eq!(err, AiNftError::StakeAccountAlreadyExists);
    assert_eq!(ctx, before);
}

#[test]
fn create_stake_account_refusals() {
    let w = world(0, 0);
    let fresh = || CreateStakeAccount {
        ai_nft: w.registry.clone(),
        execution_client: w.client.clone(),
        staker: Account { key: w.position_key, data: None },
        staker_bump: w.position_bump,
        compute_mint: w.registry.data.compute_mint,
        authority: w.staker,
    };
    let mut ctx = fresh();
    ctx.ai_nft.data.compute_mint = Pubkey::default();
    assert_eq!(
        create_stake_account(&mut ctx, &program(), 1).unwrap_err(),
        AiNftError::ComputeMintNotInitialized
    );
    let mut ctx = fresh();
    ctx.execution_client.data.ai_nft = key(99);
    assert_eq!(create_stake_account(&mut ctx, &program(), 1).unwrap_err(), AiNftError::InvalidAiNft);
    let mut ctx = fresh();
    ctx.execution_client.data.active = false;
    assert_eq!(
        create_stake_account(&mut ctx, &program(), 1).unwrap_err(),
        AiNftError::ExecutionClientNotActive
    );
    let mut ctx = fresh();
    ctx.compute_mint = key(99);
    assert_eq!(
        create_stake_account(&mut ctx, &program(), 1).unwrap_err(),
        AiNftError::InvalidComputeMint
    );
    let mut ctx = fresh();
    ctx.staker_bump = w.position_bump.wrapping_sub(1);
    assert_eq!(create_stake_account(&mut ctx, &program(), 1).unwrap_err(), AiNftError::InvalidStaker);
}
