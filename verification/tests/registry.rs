use ainft::error::AiNftError;
use ainft::events::{AINFTAppInitialized, ExecutionClientConfigUpdated};
use ainft::ainft::{create_app_ainft, create_compute_mint, mint_compute, register_execution_client};
use ainft::instructions::{create_ai_character_compute_account_handler, set_execution_client_active_handler, set_external_compute_mint_handler, update_ai_character_config_handler, update_ai_character_execution_client_handler, update_character_config_handler, update_execution_client_config_handler, CreateAiCharacterComputeAccount, CreateAppAiNft, CreateComputeMint, MintCompute, RegisterExecutionClient, SetExternalComputeMint, UpdateAiCharacter, UpdateAiCharacterConfig, UpdateAiCharacterExecutionClient, UpdateExecutionClientConfig};
use ainft::program::{PaymentPolicy, Program};
use ainft::pubkey::Pubkey;
use ainft::state::{
    AiCharacterNFT, AiNft, CharacterConfig, CharacterConfigInput, CreateAiNftParams,
    ExecutionClient, SettingsInput, StyleConfigInput, VoiceSettingsInput,
    GAS_DECIMALS_MULTIPLIER,
};
use ainft::token::{Account, Mint, TokenAccount};

fn key(n: u8) -> Pubkey {
    Pubkey::new_from_array([n; 32])
}

fn derived(seeds: &[&[u8]], program: &Pubkey) -> (Pubkey, u8) {
    let id = anchor_lang::prelude::Pubkey::new_from_array(program.to_bytes());
    let (address, bump) = anchor_lang::prelude::Pubkey::find_program_address(seeds, &id);
    (Pubkey::new_from_array(address.to_bytes()), bump)
}

fn program() -> Program {
    Program { program_id: key(200), payment_policy: PaymentPolicy::ChargeAtSend }
}

fn registry() -> Account<AiNft> {
    let (registry_key, bump) = derived(&[b"app_ainft"], &program().program_id);
    Account { key: registry_key, data: AiNft { authority: key(4), compute_mint: key(1), bump: [bump] } }
}

fn register_ctx() -> (RegisterExecutionClient, u8) {
    let operator = key(2);
    let (client_key, bump) = derived(
        &[b"execution_client", &registry().key.to_bytes(), &operator.to_bytes()],
        &program().program_id,
    );
    (
        RegisterExecutionClient {
            ai_nft: registry(),
            execution_client: Account { key: client_key, data: None },
            compute_token_account: key(10),
            staked_token_account: key(12),
            compute_mint: key(1),
            signer: operator,
            staked_mint: key(11),
        },
        bump,
    )
}

fn types() -> Vec<String> {
    vec!["text".to_string(), "image".to_string()]
}

#[test]
fn register_creates_an_active_client_with_an_empty_pool() {
    let (mut ctx, bump) = register_ctx();
    let before = ctx.clone();
    let receipt =
        register_execution_client(&mut ctx, &program(), 2_200_000_000, types(), 25, bump).unwrap();
    let client = ctx.execution_client.data.clone().unwrap();
    assert_eq!(
        client,
        ExecutionClient {
            ai_nft: before.ai_nft.key,
            authority: before.signer,
            compute_token_address: before.compute_token_account,
            gas: 2_200_000_000,
            compute_mint: before.compute_mint,
            liquid_staking_token_mint: before.staked_mint,
            stake_pool_token_account: before.staked_token_account,
            total_compute: 0,
            total_staked: 0,
            total_processed: 0,
            staker_fee_share: 25,
            active: true,
            bump: [bump],
            supported_message_types: types(),
        }
    );
    assert_eq!(
        receipt.staked_mint,
        Mint { key: before.staked_mint, mint_authority: Some(before.execution_client.key), supply: 0, decimals: 9 }
    );
    assert_eq!(
        receipt.staked_token_account,
        TokenAccount { key: before.staked_token_account, mint: key(1), owner: before.ai_nft.key, amount: 0 }
    );
    assert_eq!(
        receipt.compute_token_account,
        TokenAccount {
            key: before.compute_token_account,
            mint: key(1),
            owner: before.execution_client.key,
            amount: 0
        }
    );
    assert_eq!(receipt.event.authority, before.signer);
    assert_eq!(receipt.event.execution_client, before.execution_client.key);
    assert_eq!(receipt.event.gas, 2_200_000_000);
    assert_eq!(receipt.event.stake, 0);
    assert_eq!(receipt.event.supported_message_types, types());
    assert_eq!(client.get_staking_rate(), None);
}

#[test]
fn register_with_fee_share_101_fails_and_creates_no_record() {
    let (mut ctx, bump) = register_ctx();
    let before = ctx.clone();
    let err = register_execution_client(&mut ctx, &program(), 1, types(), 101, bump).unwrap_err();
    assert_eq!(err, AiNftError::InvalidFeeShare);
    assert_eq!(ctx, before);
    assert!(ctx.execution_client.data.is_none());
}

#[test]
fn register_accepts_fee_shares_up_to_100() {
    for share in [0u8, 100] {
        let (mut ctx, bump) = register_ctx();
        register_execution_client(&mut ctx, &program(), 1, types(), share, bump).unwrap();
        assert_eq!(ctx.execution_client.data.unwrap().staker_fee_share, share);
    }
}

#[test]
fn register_holds_gas_to_the_cap() {
    let (mut ctx, bump) = register_ctx();
    let before = ctx.clone();
    let err = register_execution_client(
        &mut ctx,
        &program(),
        600_000_000 * GAS_DECIMALS_MULTIPLIER + 1,
        types(),
        10,
        bump,
    )
    .unwrap_err();
    assert_eq!(err, AiNftError::InvalidGasAmount);
    assert_eq!(ctx, before);
    register_execution_client(
        &mut ctx,
        &program(),
        600_000_000 * GAS_DECIMALS_MULTIPLIER,
        types(),
        10,
        bump,
    )
    .unwrap();
}

#[test]
fn register_reports_the_fee_share_before_the_gas() {
    let (mut ctx, bump) = register_ctx();
    let err = register_execution_client(&mut ctx, &program(), u64::MAX, types(), 200, bump).unwrap_err();
    assert_eq!(err, AiNftError::InvalidFeeShare);
}

#[test]
fn register_needs_a_credit_mint_an_empty_slot_and_the_right_bump() {
    let (mut ctx, bump) = register_ctx();
    ctx.ai_nft.data.compute_mint = Pubkey::default();
    ctx.compute_mint = Pubkey::default();
    assert_eq!(
        register_execution_client(&mut ctx, &program(), 1, types(), 1, bump).unwrap_err(),
        AiNftError::ComputeMintNotInitialized
    );

    let (mut ctx, bump) = register_ctx();
    ctx.compute_mint = key(99);
    assert_eq!(
        register_execution_client(&mut ctx, &program(), 1, types(), 1, bump).unwrap_err(),
        AiNftError::InvalidComputeMint
    );

    let (mut ctx, bump) = register_ctx();
    assert_eq!(
        register_execution_client(&mut ctx, &program(), 1, types(), 1, 0).unwrap_err(),
        AiNftError::InvalidExecutionClientBump
    );
    assert_eq!(
        register_execution_client(&mut ctx, &program(), 1, types(), 1, bump.wrapping_sub(1).max(1))
            .unwrap_err(),
        AiNftError::InvalidExecutionClientBump
    );
    assert!(ctx.execution_client.data.is_none());

    register_execution_client(&mut ctx, &program(), 1, types(), 1, bump).unwrap();
    let before = ctx.clone();
    assert_eq!(
        register_execution_client(&mut ctx, &program(), 2, types(), 2, bump).unwrap_err(),
        AiNftError::InvalidExecutionClient
    );
    assert_eq!(ctx, before);
}

fn registered() -> Account<ExecutionClient> {
    let (mut ctx, bump) = register_ctx();
    register_execution_client(&mut ctx, &program(), 1_000, types(), 50, bump).unwrap();
    Account { key: ctx.execution_client.key, data: ctx.execution_client.data.unwrap() }
}

#[test]
fn update_gas_at_the_cap_succeeds_and_above_it_fails() {
    let client = registered();
    let mut ctx = UpdateExecutionClientConfig { authority: client.data.authority, execution_client: client };
    let event =
        update_execution_client_config_handler(&mut ctx, 600_000_000 * GAS_DECIMALS_MULTIPLIER).unwrap();
    assert_eq!(
        event,
        ExecutionClientConfigUpdated {
            client: ctx.execution_client.key,
            new_gas: 600_000_000 * GAS_DECIMALS_MULTIPLIER
        }
    );
    assert_eq!(ctx.execution_client.data.gas, 600_000_000_000_000_000);

    let before = ctx.clone();
    let err =
        update_execution_client_config_handler(&mut ctx, 600_000_001 * GAS_DECIMALS_MULTIPLIER).unwrap_err();
    assert_eq!(err, AiNftError::InvalidGasAmount);
    assert_eq!(ctx, before);
    let err = update_execution_client_config_handler(&mut ctx, 600_000_000 * GAS_DECIMALS_MULTIPLIER + 1)
        .unwrap_err();
    assert_eq!(err, AiNftError::InvalidGasAmount);
}

#[test]
fn update_gas_changes_no_other_field() {
    let client = registered();
    let mut expected = client.data.clone();
    expected.gas = 77;
    let mut ctx = UpdateExecutionClientConfig { authority: client.data.authority, execution_client: client };
    update_execution_client_config_handler(&mut ctx, 77).unwrap();
    assert_eq!(ctx.execution_client.data, expected);
}

#[test]
fn only_the_owner_changes_a_client() {
    let client = registered();
    let mut ctx = UpdateExecutionClientConfig { authority: key(99), execution_client: client };
    let before = ctx.clone();
    assert_eq!(update_execution_client_config_handler(&mut ctx, 5).unwrap_err(), AiNftError::InvalidAuthority);
    assert_eq!(set_execution_client_active_handler(&mut ctx, false).unwrap_err(), AiNftError::InvalidAuthority);
    assert_eq!(ctx, before);
}

#[test]
fn the_owner_switches_a_client_off_and_on() {
    let client = registered();
    let mut ctx = UpdateExecutionClientConfig { authority: client.data.authority, execution_client: client };
    set_execution_client_active_handler(&mut ctx, false).unwrap();
    assert!(!ctx.execution_client.data.active);
    assert_eq!(ctx.execution_client.data.gas, 1_000);
    set_execution_client_active_handler(&mut ctx, true).unwrap();
    assert!(ctx.execution_client.data.active);
}

#[test]
fn create_app_ainft_creates_the_registry_once() {
    let slot = registry();
    let mut ctx = CreateAppAiNft {
        ai_nft: Account { key: slot.key, data: None },
        ai_nft_bump: slot.data.bump[0],
        payer: key(4),
    };
    let params = CreateAiNftParams { name: "app".to_string(), compute_mint: key(1) };
    let event = create_app_ainft(&mut ctx, &program(), params.clone()).unwrap();
    assert_eq!(event, AINFTAppInitialized { authority: key(4) });
    assert_eq!(ctx.ai_nft.data, Some(slot.data.clone()));
    let before = ctx.clone();
    assert_eq!(
        create_app_ainft(&mut ctx, &program(), params.clone()).unwrap_err(),
        AiNftError::InvalidAiNft
    );
    assert_eq!(ctx, before);

    let mut ctx = CreateAppAiNft { ai_nft: Account { key: key(50), data: None }, ai_nft_bump: 255, payer: key(4) };
    assert_eq!(create_app_ainft(&mut ctx, &program(), params).unwrap_err(), AiNftError::InvalidAiNft);
    assert!(ctx.ai_nft.data.is_none());
}

#[test]
fn registry_checks_its_credit_mint() {
    let mut registry = registry().data;
    assert_eq!(registry.check_compute_mint_initialized(), Ok(()));
    registry.set_compute_mint(Pubkey::default());
    assert_eq!(registry.check_compute_mint_initialized(), Err(AiNftError::ComputeMintNotInitialized));
    registry.set_compute_mint(key(9));
    assert_eq!(registry.compute_mint, key(9));
    assert_eq!(AiNft::LEN, 73);
    let seeds = registry.as_seeds();
    assert_eq!(seeds[0], b"app_ainft");
    assert_eq!(seeds[1], &registry.bump[..]);
}

#[test]
fn an_external_credit_mint_is_adopted_once_by_the_administrator() {
    let mut unset = registry();
    unset.data.compute_mint = Pubkey::default();
    let mint = Mint { key: key(60), mint_authority: Some(key(61)), supply: 5, decimals: 9 };
    let mut ctx = SetExternalComputeMint { ai_nft: unset.clone(), external_compute_mint: mint, authority: key(99) };
    let before = ctx.clone();
    assert_eq!(set_external_compute_mint_handler(&mut ctx).unwrap_err(), AiNftError::InvalidAuthority);
    assert_eq!(ctx, before);

    ctx.authority = key(4);
    let event = set_external_compute_mint_handler(&mut ctx).unwrap();
    assert_eq!(event.ai_nft, unset.key);
    assert_eq!(event.compute_mint, key(60));
    assert_eq!(ctx.ai_nft.data.compute_mint, key(60));

    let before = ctx.clone();
    assert_eq!(
        set_external_compute_mint_handler(&mut ctx).unwrap_err(),
        AiNftError::ComputeMintAlreadyInitialized
    );
    assert_eq!(ctx, before);
}

#[test]
fn the_registry_creates_its_own_credit_mint_once() {
    let mut unset = registry();
    unset.data.compute_mint = Pubkey::default();
    let mut ctx = CreateComputeMint { ai_nft: unset.clone(), compute_mint: key(62), payer: key(4) };
    let receipt = create_compute_mint(&mut ctx, &program()).unwrap();
    assert_eq!(
        receipt.compute_mint,
        Mint { key: key(62), mint_authority: Some(unset.key), supply: 0, decimals: 9 }
    );
    assert_eq!(receipt.authority.account(), unset.key);
    assert!(receipt.authority.is_derived());
    assert_eq!(receipt.event.ai_nft, unset.key);
    assert_eq!(receipt.event.compute_mint, key(62));
    assert_eq!(ctx.ai_nft.data.compute_mint, key(62));
    let before = ctx.clone();
    assert_eq!(
        create_compute_mint(&mut ctx, &program()).unwrap_err(),
        AiNftError::ComputeMintNotInitialized
    );
    assert_eq!(ctx, before);

    let mut ctx = CreateComputeMint { ai_nft: unset, compute_mint: key(62), payer: key(4) };
    ctx.ai_nft.key = key(63);
    assert_eq!(create_compute_mint(&mut ctx, &program()).unwrap_err(), AiNftError::InvalidAiNft);
}

fn mint_ctx() -> MintCompute {
    MintCompute {
        ai_nft: registry(),
        compute_mint: Mint { key: key(1), mint_authority: Some(registry().key), supply: 0, decimals: 9 },
        recipient_token_account: TokenAccount { key: key(70), mint: key(1), owner: key(71), amount: 0 },
        destination_user: key(71),
        authority: key(4),
    }
}

#[test]
fn the_administrator_mints_compute_under_the_registry() {
    let ctx = mint_ctx();
    let receipt = mint_compute(&ctx, &program(), 12_345).unwrap();
    assert_eq!(receipt.mint_to.amount, 12_345);
    assert_eq!(receipt.mint_to.mint, key(1));
    assert_eq!(receipt.mint_to.to, key(70));
    assert_eq!(receipt.mint_to.authority.account(), ctx.ai_nft.key);
    assert!(receipt.mint_to.authority.is_derived());
    assert_eq!(receipt.event.ai_nft, ctx.ai_nft.key);
    assert_eq!(receipt.event.amount, 12_345);
    assert_eq!(receipt.event.destination, key(70));
}

#[test]
fn minting_compute_is_refused_to_others() {
    let mut ctx = mint_ctx();
    ctx.authority = key(99);
    assert_eq!(mint_compute(&ctx, &program(), 1).unwrap_err(), AiNftError::InvalidAuthority);
    let mut ctx = mint_ctx();
    ctx.ai_nft.data.compute_mint = Pubkey::default();
    assert_eq!(mint_compute(&ctx, &program(), 1).unwrap_err(), AiNftError::ComputeMintNotInitialized);
    let mut ctx = mint_ctx();
    ctx.compute_mint.key = key(99);
    assert_eq!(mint_compute(&ctx, &program(), 1).unwrap_err(), AiNftError::InvalidComputeMint);
    let mut ctx = mint_ctx();
    ctx.recipient_token_account.mint = key(99);
    assert_eq!(mint_compute(&ctx, &program(), 1).unwrap_err(), AiNftError::InvalidComputeMint);
    let mut ctx = mint_ctx();
    ctx.recipient_token_account.owner = key(99);
    assert_eq!(mint_compute(&ctx, &program(), 1).unwrap_err(), AiNftError::InvalidTokenOwner);
    let mut ctx = mint_ctx();
    ctx.ai_nft.key = key(99);
    assert_eq!(mint_compute(&ctx, &program(), 1).unwrap_err(), AiNftError::InvalidAiNft);
}

fn character() -> Account<AiCharacterNFT> {
    Account {
        key: key(80),
        data: AiCharacterNFT::try_new(&registry().key, &key(81), "Ada", None, None, &key(82), 254),
    }
}

#[test]
fn a_character_is_assigned_an_active_client_only() {
    let client = registered();
    let mut ctx = UpdateAiCharacterExecutionClient {
        ai_nft: registry(),
        ai_character: character(),
        authority: key(5),
        execution_client: client.clone(),
    };
    assert!(ctx.ai_character.data.execution_client.is_default());
    let event = update_ai_character_execution_client_handler(&mut ctx).unwrap();
    assert_eq!(event.ai_character, key(80));
    assert_eq!(event.new_execution_client, client.key);
    assert_eq!(ctx.ai_character.data.execution_client, client.key);

    let mut ctx = UpdateAiCharacterExecutionClient {
        ai_nft: registry(),
        ai_character: character(),
        authority: key(5),
        execution_client: client,
    };
    ctx.execution_client.data.active = false;
    let before = ctx.clone();
    assert_eq!(
        update_ai_character_execution_client_handler(&mut ctx).unwrap_err(),
        AiNftError::ExecutionClientNotActive
    );
    assert_eq!(ctx, before);
}

#[test]
fn a_character_gets_its_compute_account() {
    let mut ctx = CreateAiCharacterComputeAccount {
        ai_nft: registry(),
        ai_character: character(),
        compute_mint: key(1),
        ai_character_compute_token_account: key(83),
        payer: key(5),
    };
    let receipt = create_ai_character_compute_account_handler(&mut ctx).unwrap();
    assert_eq!(
        receipt.compute_token_account,
        TokenAccount { key: key(83), mint: key(1), owner: key(80), amount: 0 }
    );
    assert_eq!(receipt.event.ai_character, key(80));
    assert_eq!(receipt.event.compute_token_account, key(83));
    assert_eq!(ctx.ai_character.data.compute_token_account, key(83));

    ctx.compute_mint = key(99);
    let before = ctx.clone();
    assert_eq!(
        create_ai_character_compute_account_handler(&mut ctx).unwrap_err(),
        AiNftError::InvalidComputeMint
    );
    assert_eq!(ctx, before);
    ctx.ai_nft.data.compute_mint = Pubkey::default();
    assert_eq!(
        create_ai_character_compute_account_handler(&mut ctx).unwrap_err(),
        AiNftError::ComputeMintNotInitialized
    );
}

fn personality(owner: Pubkey) -> Account<CharacterConfig> {
    let mut config = CharacterConfig::default();
    config.authority = owner;
    Account { key: key(90), data: config }
}

#[test]
fn the_holder_points_a_character_at_another_personality() {
    let holder = key(5);
    let fresh = || UpdateAiCharacterConfig {
        ai_character: character(),
        new_character_config: personality(holder),
        authority: holder,
        ai_character_token_account: TokenAccount { key: key(84), mint: key(81), owner: holder, amount: 1 },
    };
    let mut ctx = fresh();
    let event = update_ai_character_config_handler(&mut ctx).unwrap();
    assert_eq!(event.ai_character, key(80));
    assert_eq!(event.character_config, key(90));
    assert_eq!(event.authority, holder);
    assert_eq!(ctx.ai_character.data.character_config_pubkey, key(90));

    let mut ctx = fresh();
    ctx.ai_character_token_account.mint = key(99);
    assert_eq!(update_ai_character_config_handler(&mut ctx).unwrap_err(), AiNftError::InvalidAgentNftMint);
    let mut ctx = fresh();
    ctx.new_character_config.data.authority = key(99);
    assert_eq!(update_ai_character_config_handler(&mut ctx).unwrap_err(), AiNftError::InvalidOwner);
    let mut ctx = fresh();
    ctx.ai_character_token_account.owner = key(99);
    assert_eq!(update_ai_character_config_handler(&mut ctx).unwrap_err(), AiNftError::InvalidOwner);
    let mut ctx = fresh();
    ctx.ai_character_token_account.amount = 0;
    let before = ctx.clone();
    assert_eq!(
        update_ai_character_config_handler(&mut ctx).unwrap_err(),
        AiNftError::InvalidAgentNftTokenAccount
    );
    assert_eq!(ctx, before);
}

fn input() -> CharacterConfigInput {
    CharacterConfigInput {
        name: "Ada".to_string(),
        clients: vec![],
        model_provider: "m".to_string(),
        settings: SettingsInput { voice: VoiceSettingsInput { model: [0; 32] } },
        bio: vec![],
        lore: vec![],
        knowledge: vec![],
        topics: vec![],
        style: StyleConfigInput { all: [[0; 32]; 5], chat: [[0; 32]; 5], post: [[0; 32]; 5] },
        adjectives: vec![],
    }
}

#[test]
fn the_holder_of_a_character_may_hand_in_a_personality() {
    let holder = key(5);
    let fresh = || UpdateAiCharacter {
        ai_nft: registry(),
        ai_character: character(),
        authority: holder,
        ai_character_mint: Mint { key: key(81), mint_authority: Some(registry().key), supply: 1, decimals: 0 },
        authority_ai_character_token_account: TokenAccount { key: key(84), mint: key(81), owner: holder, amount: 1 },
    };
    let mut ctx = fresh();
    let before = ctx.clone();
    assert_eq!(update_character_config_handler(&mut ctx, input()), Ok(()));
    assert_eq!(ctx, before);

    let mut ctx = fresh();
    ctx.ai_character_mint.key = key(99);
    assert_eq!(update_character_config_handler(&mut ctx, input()), Err(AiNftError::InvalidAgentNftMint));
    let mut ctx = fresh();
    ctx.ai_character_mint.mint_authority = None;
    assert_eq!(update_character_config_handler(&mut ctx, input()), Err(AiNftError::InvalidMintAuthority));
    let mut ctx = fresh();
    ctx.authority_ai_character_token_account.mint = key(99);
    assert_eq!(update_character_config_handler(&mut ctx, input()), Err(AiNftError::InvalidAgentNftMint));
    let mut ctx = fresh();
    ctx.authority_ai_character_token_account.owner = key(99);
    assert_eq!(update_character_config_handler(&mut ctx, input()), Err(AiNftError::InvalidOwner));
    let mut ctx = fresh();
    ctx.authority_ai_character_token_account.amount = 2;
    assert_eq!(
        update_character_config_handler(&mut ctx, input()),
        Err(AiNftError::InvalidAgentNftTokenAccount)
    );
}
