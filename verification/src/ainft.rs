//! The operations of the program as a deployment runs them: each derives
//! the addresses and authorities it needs under the deployment's program id
//! and hands them, with the records, to its handler.
use crate::authority::{program_address, Authority};
use crate::error::AiNftError;
use crate::events::AINFTAppInitialized;
use crate::instructions::create_app_ainft::registry_seeds;
use crate::instructions::create_character_config::character_config_seeds;
use crate::instructions::create_collection::collection_seeds;
use crate::instructions::premint_nft::character_seeds;
use crate::instructions::register_execution_client::execution_client_seeds;
use crate::instructions::{
    character_address, character_config_address, create_app_ainft_handler,
    create_character_config_handler, create_collection_handler, create_compute_mint_handler,
    create_preminted_nft_handler, create_stake_account_handler, execution_client_address,
    mint_compute_handler, purchase_preminted_nft_handler, register_execution_client_handler,
    registry_address, send_message_handler, stake_compute_handler, unstake_compute_handler,
    update_character_adjectives_handler, update_character_bio_handler,
    update_character_clients_handler, update_character_knowledge_handler,
    update_character_lore_handler, update_character_model_provider_handler,
    update_character_name_handler, update_character_style_all_handler,
    update_character_style_chat_handler, update_character_style_handler,
    update_character_style_post_handler, update_character_topics_handler,
    update_character_voice_settings_handler, write_response_handler, CharacterConfigCreated,
    CollectionReceipt, ComputeMintReceipt, CreateAppAiNft, CreateCharacterConfig,
    CreateCollection, CreateComputeMint, CreatePremintedNft, CreateStakeAccount, MintCompute,
    MintComputeReceipt, PremintReceipt, PurchasePremintedNft, PurchaseReceipt,
    RegisterExecutionClient, RegistrationReceipt, ResponseReceipt, ResponseWithActions,
    SendMessage, SendReceipt, StakeAccountCreated, StakeCompute, StakeReceipt, UnstakeCompute,
    UnstakeReceipt, UpdateCharacterConfigField, WriteResponse,
};
use crate::program::Program;
use crate::pubkey::Pubkey;
use crate::state::stake_account::{staker_address, staker_seeds};
use crate::state::{CharacterConfigInput, CreateAiNftParams, StyleConfigInput};
use vstd::prelude::*;

verus! {

/// Creates the one registry of a deployment, at the address derived from
/// the tag `app_ainft` and the bump.
pub fn create_app_ainft(
    ctx: &mut CreateAppAiNft,
    program: &Program,
    params: CreateAiNftParams,
) -> (result: Result<AINFTAppInitialized, AiNftError>)
    ensures
        match result {
            Err(e) => old(ctx).error(
                program_address(registry_seeds(old(ctx).ai_nft_bump), program.program_id.bytes@),
            ) == Some(e) && *final(ctx) == *old(ctx),
            Ok(event) => {
                &&& old(ctx).error(
                    program_address(
                        registry_seeds(old(ctx).ai_nft_bump),
                        program.program_id.bytes@,
                    ),
                ) is None
                &&& old(ctx).created(*final(ctx), event, params)
            },
        },
{
    let address = registry_address(ctx.ai_nft_bump, &program.program_id);
    create_app_ainft_handler(ctx, address, params)
}

/// Creates a collection owned by the signer, at the address derived from
/// the tag `collection`, the signer, the name and the bump.
pub fn create_ainft_collection(
    ctx: &mut CreateCollection,
    program: &Program,
    name: String,
    uri: String,
    description: String,
    royalty_basis_points: u16,
    mint_price: u64,
    start_mint_date: i64,
    end_mint_date: i64,
) -> (result: Result<CollectionReceipt, AiNftError>)
    ensures
        match result {
            Err(e) => old(ctx).error(
                program_address(
                    collection_seeds(old(ctx).authority, name@, old(ctx).collection_bump),
                    program.program_id.bytes@,
                ),
            ) == Some(e) && *final(ctx) == *old(ctx),
            Ok(receipt) => {
                &&& old(ctx).error(
                    program_address(
                        collection_seeds(old(ctx).authority, name@, old(ctx).collection_bump),
                        program.program_id.bytes@,
                    ),
                ) is None
                &&& old(ctx).created(
                    *final(ctx),
                    receipt,
                    name,
                    uri,
                    description,
                    royalty_basis_points,
                    mint_price,
                    start_mint_date,
                    end_mint_date,
                )
                &&& receipt.authority.spec_seeds() == collection_seeds(
                    old(ctx).authority,
                    name@,
                    old(ctx).collection_bump,
                )
            },
        },
{
    let bump_seed = [ctx.collection_bump];
    let seeds = [
        "collection".as_bytes(),
        ctx.authority.bytes.as_slice(),
        name.as_str().as_bytes(),
        bump_seed.as_slice(),
    ];
    assert(bump_seed@ =~= seq![ctx.collection_bump]);
    assert(crate::authority::seeds_view(seeds@) =~= collection_seeds(
        ctx.authority,
        name@,
        ctx.collection_bump,
    ));
    let authority = Authority::derive(seeds.as_slice(), &program.program_id);
    create_collection_handler(
        ctx,
        authority,
        name,
        uri,
        description,
        royalty_basis_points,
        mint_price,
        start_mint_date,
        end_mint_date,
    )
}

/// Mints a character into its collection ahead of sale, under the
/// collection's derived authority and into the slot derived for the
/// character's mint.
pub fn create_preminted_nft(
    ctx: &mut CreatePremintedNft,
    program: &Program,
    name: String,
    uri: String,
    collection_name: String,
    price: u64,
    default_execution_client: Option<Pubkey>,
) -> (result: Result<PremintReceipt, AiNftError>)
    ensures
        match result {
            Err(e) => old(ctx).error(
                program_address(old(ctx).collection.data.spec_seeds(), program.program_id.bytes@),
                program_address(
                    character_seeds(old(ctx).ai_character_mint, old(ctx).ai_character_bump),
                    program.program_id.bytes@,
                ),
                collection_name@,
            ) == Some(e) && *final(ctx) == *old(ctx),
            Ok(receipt) => {
                &&& old(ctx).error(
                    program_address(
                        old(ctx).collection.data.spec_seeds(),
                        program.program_id.bytes@,
                    ),
                    program_address(
                        character_seeds(old(ctx).ai_character_mint, old(ctx).ai_character_bump),
                        program.program_id.bytes@,
                    ),
                    collection_name@,
                ) is None
                &&& old(ctx).preminted(
                    *final(ctx),
                    receipt,
                    name@,
                    price,
                    default_execution_client,
                )
                &&& receipt.mint_to.authority.spec_seeds() == old(ctx).collection.data.spec_seeds()
            },
        },
{
    let seeds = ctx.collection.data.seeds();
    let authority = Authority::derive(seeds.as_slice(), &program.program_id);
    let slot = character_address(
        &ctx.ai_character_mint,
        ctx.ai_character_bump,
        &program.program_id,
    );
    create_preminted_nft_handler(
        ctx,
        authority,
        slot,
        name,
        uri,
        collection_name,
        price,
        default_execution_client,
    )
}

/// Creates the personality record that the signer names `id`, at the
/// address derived from the tag `character_config`, the signer, the name
/// and the bump.
pub fn create_character_config(
    ctx: &mut CreateCharacterConfig,
    program: &Program,
    id: String,
    config_input: CharacterConfigInput,
) -> (result: Result<CharacterConfigCreated, AiNftError>)
    ensures
        match result {
            Err(e) => old(ctx).error(
                program_address(
                    character_config_seeds(
                        old(ctx).authority,
                        id@,
                        old(ctx).character_config_bump,
                    ),
                    program.program_id.bytes@,
                ),
            ) == Some(e) && *final(ctx) == *old(ctx),
            Ok(event) => {
                &&& old(ctx).error(
                    program_address(
                        character_config_seeds(
                            old(ctx).authority,
                            id@,
                            old(ctx).character_config_bump,
                        ),
                        program.program_id.bytes@,
                    ),
                ) is None
                &&& old(ctx).created(*final(ctx), event, config_input)
            },
        },
{
    let address = character_config_address(
        &ctx.authority,
        id.as_str(),
        ctx.character_config_bump,
        &program.program_id,
    );
    create_character_config_handler(ctx, address, config_input)
}

/// Sells a preminted character to the signer, under the collection's
/// derived authority.
pub fn mint_ainft_from_collection(
    ctx: &mut PurchasePremintedNft,
    program: &Program,
) -> (result: Result<PurchaseReceipt, AiNftError>)
    ensures
        match result {
            Err(e) => old(ctx).error(
                program_address(old(ctx).collection.data.spec_seeds(), program.program_id.bytes@),
            ) == Some(e) && *final(ctx) == *old(ctx),
            Ok(receipt) => {
                &&& old(ctx).error(
                    program_address(
                        old(ctx).collection.data.spec_seeds(),
                        program.program_id.bytes@,
                    ),
                ) is None
                &&& old(ctx).purchased(*final(ctx), receipt)
                &&& receipt.transfer.authority.spec_seeds() == old(ctx).collection.data.spec_seeds()
            },
        },
{
    let seeds = ctx.collection.data.seeds();
    let authority = Authority::derive(seeds.as_slice(), &program.program_id);
    purchase_preminted_nft_handler(ctx, authority)
}

/// Gives the registry a credit mint of its own, under the registry's
/// derived authority.
pub fn create_compute_mint(
    ctx: &mut CreateComputeMint,
    program: &Program,
) -> (result: Result<ComputeMintReceipt, AiNftError>)
    ensures
        match result {
            Err(e) => old(ctx).error(
                program_address(old(ctx).ai_nft.data.spec_seeds(), program.program_id.bytes@),
            ) == Some(e) && *final(ctx) == *old(ctx),
            Ok(receipt) => {
                &&& old(ctx).error(
                    program_address(old(ctx).ai_nft.data.spec_seeds(), program.program_id.bytes@),
                ) is None
                &&& old(ctx).created(*final(ctx), receipt)
                &&& receipt.authority.spec_seeds() == old(ctx).ai_nft.data.spec_seeds()
            },
        },
{
    let seeds = ctx.ai_nft.data.as_seeds();
    let authority = Authority::derive(seeds.as_slice(), &program.program_id);
    create_compute_mint_handler(ctx, authority)
}

/// Orders `amount` new compute credits for a user, minted under the
/// registry's derived authority.
pub fn mint_compute(
    ctx: &MintCompute,
    program: &Program,
    amount: u64,
) -> (result: Result<MintComputeReceipt, AiNftError>)
    ensures
        match result {
            Err(e) => ctx.error(
                program_address(ctx.ai_nft.data.spec_seeds(), program.program_id.bytes@),
            ) == Some(e),
            Ok(receipt) => {
                &&& ctx.error(
                    program_address(ctx.ai_nft.data.spec_seeds(), program.program_id.bytes@),
                ) is None
                &&& ctx.minted(receipt, amount)
                &&& receipt.mint_to.authority.spec_seeds() == ctx.ai_nft.data.spec_seeds()
            },
        },
{
    let seeds = ctx.ai_nft.data.as_seeds();
    let authority = Authority::derive(seeds.as_slice(), &program.program_id);
    mint_compute_handler(ctx, authority, amount)
}

/// Sends `content` to an AI character at `now`, into the slot derived for
/// the character's next message number, under the deployment's payment
/// policy.
pub fn send_message(
    ctx: &mut SendMessage,
    program: &Program,
    content: String,
    now: i64,
) -> (result: Result<SendReceipt, AiNftError>)
    ensures
        old(ctx).message.data is Some ==> result is Err,
        match result {
            Err(e) => old(ctx).error(
                program_address(old(ctx).slot_seeds(), program.program_id.bytes@),
            ) == Some(e) && *final(ctx) == *old(ctx),
            Ok(receipt) => {
                &&& old(ctx).error(
                    program_address(old(ctx).slot_seeds(), program.program_id.bytes@),
                ) is None
                &&& old(ctx).sent(*final(ctx), receipt, program.payment_policy, content@, now)
                &&& old(ctx).ai_character.data.message_count
                    < final(ctx).ai_character.data.message_count
            },
        },
{
    let slot = ctx.slot_address(&program.program_id);
    send_message_handler(ctx, program.payment_policy, slot, content, now)
}

/// Records the execution client's answer to a message at `now` and settles
/// the fee under the character's derived authority.
pub fn write_response(
    ctx: &mut WriteResponse,
    program: &Program,
    response: ResponseWithActions,
    now: i64,
) -> (result: Result<ResponseReceipt, AiNftError>)
    ensures
        old(ctx).message.data.answered ==> result is Err,
        match result {
            Err(e) => old(ctx).error(
                program_address(
                    old(ctx).ai_character_nft.data.spec_seeds(),
                    program.program_id.bytes@,
                ),
            ) == Some(e) && *final(ctx) == *old(ctx),
            Ok(receipt) => {
                &&& old(ctx).error(
                    program_address(
                        old(ctx).ai_character_nft.data.spec_seeds(),
                        program.program_id.bytes@,
                    ),
                ) is None
                &&& old(ctx).answered(*final(ctx), receipt, response, now)
                &&& receipt.staker_transfer is Some ==> {
                    receipt.staker_transfer->0.authority.spec_seeds() == old(
                        ctx,
                    ).ai_character_nft.data.spec_seeds()
                }
                &&& receipt.client_transfer is Some ==> {
                    receipt.client_transfer->0.authority.spec_seeds() == old(
                        ctx,
                    ).ai_character_nft.data.spec_seeds()
                }
            },
        },
{
    let seeds = ctx.ai_character_nft.data.as_seeds();
    let authority = Authority::derive(seeds.as_slice(), &program.program_id);
    write_response_handler(ctx, authority, response, now)
}

/// Opens the signer's position with an execution client in `epoch`, at the
/// address derived from the tag `staker`, the client, the signer and the
/// bump.
pub fn create_stake_account(
    ctx: &mut CreateStakeAccount,
    program: &Program,
    epoch: u64,
) -> (result: Result<StakeAccountCreated, AiNftError>)
    ensures
        match result {
            Err(e) => old(ctx).error(
                program_address(
                    staker_seeds(
                        old(ctx).execution_client.key,
                        old(ctx).authority,
                        old(ctx).staker_bump,
                    ),
                    program.program_id.bytes@,
                ),
            ) == Some(e) && *final(ctx) == *old(ctx),
            Ok(event) => {
                &&& old(ctx).error(
                    program_address(
                        staker_seeds(
                            old(ctx).execution_client.key,
                            old(ctx).authority,
                            old(ctx).staker_bump,
                        ),
                        program.program_id.bytes@,
                    ),
                ) is None
                &&& old(ctx).opened(*final(ctx), event, epoch)
            },
        },
{
    let position = staker_address(
        &ctx.execution_client.key,
        &ctx.authority,
        ctx.staker_bump,
        &program.program_id,
    );
    create_stake_account_handler(ctx, position, epoch)
}

/// Registers the signer as an execution client of the registry, at the
/// address derived from the tag `execution_client`, the registry, the
/// signer and the bump.
pub fn register_execution_client(
    ctx: &mut RegisterExecutionClient,
    program: &Program,
    gas: u64,
    supported_message_types: Vec<String>,
    staker_fee_share: u8,
    execution_client_bump: u8,
) -> (result: Result<RegistrationReceipt, AiNftError>)
    ensures
        staker_fee_share > 100 ==> result is Err && final(ctx).execution_client.data
            == old(ctx).execution_client.data,
        match result {
            Err(e) => old(ctx).error(
                program_address(
                    execution_client_seeds(
                        old(ctx).ai_nft.key,
                        old(ctx).signer,
                        execution_client_bump,
                    ),
                    program.program_id.bytes@,
                ),
                gas,
                staker_fee_share,
                execution_client_bump,
            ) == Some(e) && *final(ctx) == *old(ctx),
            Ok(receipt) => {
                &&& old(ctx).error(
                    program_address(
                        execution_client_seeds(
                            old(ctx).ai_nft.key,
                            old(ctx).signer,
                            execution_client_bump,
                        ),
                        program.program_id.bytes@,
                    ),
                    gas,
                    staker_fee_share,
                    execution_client_bump,
                ) is None
                &&& old(ctx).registered(
                    *final(ctx),
                    receipt,
                    gas,
                    supported_message_types,
                    staker_fee_share,
                    execution_client_bump,
                )
            },
        },
{
    let address = execution_client_address(
        &ctx.ai_nft.key,
        &ctx.signer,
        execution_client_bump,
        &program.program_id,
    );
    register_execution_client_handler(
        ctx,
        address,
        gas,
        supported_message_types,
        staker_fee_share,
        execution_client_bump,
    )
}

/// Stakes `amount` compute credits with an execution client in `epoch`,
/// minting the claims under the client's derived authority.
pub fn stake_compute(
    ctx: &mut StakeCompute,
    program: &Program,
    amount: u64,
    epoch: u64,
) -> (result: Result<StakeReceipt, AiNftError>)
    ensures
        match result {
            Err(e) => old(ctx).error(
                program_address(
                    old(ctx).execution_client.data.spec_seeds(),
                    program.program_id.bytes@,
                ),
                program_address(
                    staker_seeds(
                        old(ctx).execution_client.key,
                        old(ctx).authority,
                        old(ctx).staker_bump,
                    ),
                    program.program_id.bytes@,
                ),
                amount,
            ) == Some(e) && *final(ctx) == *old(ctx),
            Ok(receipt) => {
                &&& old(ctx).error(
                    program_address(
                        old(ctx).execution_client.data.spec_seeds(),
                        program.program_id.bytes@,
                    ),
                    program_address(
                        staker_seeds(
                            old(ctx).execution_client.key,
                            old(ctx).authority,
                            old(ctx).staker_bump,
                        ),
                        program.program_id.bytes@,
                    ),
                    amount,
                ) is None
                &&& old(ctx).staked(*final(ctx), receipt, amount, epoch)
                &&& receipt.mint_to.authority.spec_seeds()
                    == old(ctx).execution_client.data.spec_seeds()
            },
        },
{
    let seeds = ctx.execution_client.data.seeds();
    let authority = Authority::derive(seeds.as_slice(), &program.program_id);
    let position = staker_address(
        &ctx.execution_client.key,
        &ctx.authority,
        ctx.staker_bump,
        &program.program_id,
    );
    stake_compute_handler(ctx, authority, position, amount, epoch)
}

/// Redeems `staked_amount` claim tokens with an execution client in
/// `epoch`, paying out of the vault under the registry's derived authority.
pub fn unstake_compute(
    ctx: &mut UnstakeCompute,
    program: &Program,
    staked_amount: u64,
    epoch: u64,
) -> (result: Result<UnstakeReceipt, AiNftError>)
    ensures
        match result {
            Err(e) => old(ctx).error(
                program_address(old(ctx).ai_nft.data.spec_seeds(), program.program_id.bytes@),
                staked_amount,
            ) == Some(e) && *final(ctx) == *old(ctx),
            Ok(receipt) => {
                &&& old(ctx).error(
                    program_address(old(ctx).ai_nft.data.spec_seeds(), program.program_id.bytes@),
                    staked_amount,
                ) is None
                &&& old(ctx).unstaked(*final(ctx), receipt, staked_amount, epoch)
                &&& receipt.transfer.authority.spec_seeds() == old(ctx).ai_nft.data.spec_seeds()
            },
        },
{
    let seeds = ctx.ai_nft.data.as_seeds();
    let authority = Authority::derive(seeds.as_slice(), &program.program_id);
    unstake_compute_handler(ctx, authority, staked_amount, epoch)
}

/// The address that the seeds of the personality that the signer of `ctx`
/// names `id` derive under `program`.
pub open spec fn config_address(
    ctx: UpdateCharacterConfigField,
    program: Program,
    id: Seq<char>,
) -> Option<Seq<u8>> {
    program_address(
        character_config_seeds(ctx.authority, id, ctx.character_config.data.bump),
        program.program_id.bytes@,
    )
}

/// Replaces the name of the personality that the signer names `id`.
pub fn update_character_name(
    ctx: &mut UpdateCharacterConfigField,
    program: &Program,
    id: String,
    name: String,
) -> (result: Result<(), AiNftError>)
    ensures
        match result {
            Err(e) => old(ctx).error(config_address(*old(ctx), *program, id@)) == Some(e)
                && *final(ctx) == *old(ctx),
            Ok(()) => {
                &&& old(ctx).error(config_address(*old(ctx), *program, id@)) is None
                &&& old(ctx).name_set(*final(ctx), name)
            },
        },
{
    let address = character_config_address(
        &ctx.authority,
        id.as_str(),
        ctx.character_config.data.bump,
        &program.program_id,
    );
    update_character_name_handler(ctx, address, name)
}

/// Overwrites the leading clients of the personality that the signer names
/// `id`.
pub fn update_character_clients(
    ctx: &mut UpdateCharacterConfigField,
    program: &Program,
    id: String,
    clients: Vec<String>,
) -> (result: Result<(), AiNftError>)
    ensures
        match result {
            Err(e) => old(ctx).error(config_address(*old(ctx), *program, id@)) == Some(e)
                && *final(ctx) == *old(ctx),
            Ok(()) => {
                &&& old(ctx).error(config_address(*old(ctx), *program, id@)) is None
                &&& old(ctx).clients_set(*final(ctx), clients)
            },
        },
{
    let address = character_config_address(
        &ctx.authority,
        id.as_str(),
        ctx.character_config.data.bump,
        &program.program_id,
    );
    update_character_clients_handler(ctx, address, clients)
}

/// Replaces the model provider of the personality that the signer names `id`.
pub fn update_character_model_provider(
    ctx: &mut UpdateCharacterConfigField,
    program: &Program,
    id: String,
    provider: String,
) -> (result: Result<(), AiNftError>)
    ensures
        match result {
            Err(e) => old(ctx).error(config_address(*old(ctx), *program, id@)) == Some(e)
                && *final(ctx) == *old(ctx),
            Ok(()) => {
                &&& old(ctx).error(config_address(*old(ctx), *program, id@)) is None
                &&& old(ctx).model_provider_set(*final(ctx), provider)
            },
        },
{
    let address = character_config_address(
        &ctx.authority,
        id.as_str(),
        ctx.character_config.data.bump,
        &program.program_id,
    );
    update_character_model_provider_handler(ctx, address, provider)
}

/// Replaces the voice model of the personality that the signer names `id`.
pub fn update_character_voice_settings(
    ctx: &mut UpdateCharacterConfigField,
    program: &Program,
    id: String,
    model: [u8; 32],
) -> (result: Result<(), AiNftError>)
    ensures
        match result {
            Err(e) => old(ctx).error(config_address(*old(ctx), *program, id@)) == Some(e)
                && *final(ctx) == *old(ctx),
            Ok(()) => {
                &&& old(ctx).error(config_address(*old(ctx), *program, id@)) is None
                &&& old(ctx).voice_set(*final(ctx), model)
            },
        },
{
    let address = character_config_address(
        &ctx.authority,
        id.as_str(),
        ctx.character_config.data.bump,
        &program.program_id,
    );
    update_character_voice_settings_handler(ctx, address, model)
}

/// Overwrites the leading entries of the biography of the personality that the
/// signer names `id`.
pub fn update_character_bio(
    ctx: &mut UpdateCharacterConfigField,
    program: &Program,
    id: String,
    bio: Vec<String>,
) -> (result: Result<(), AiNftError>)
    ensures
        match result {
            Err(e) => old(ctx).error(config_address(*old(ctx), *program, id@)) == Some(e)
                && *final(ctx) == *old(ctx),
            Ok(()) => {
                &&& old(ctx).error(config_address(*old(ctx), *program, id@)) is None
                &&& old(ctx).bio_set(*final(ctx), bio)
            },
        },
{
    let address = character_config_address(
        &ctx.authority,
        id.as_str(),
        ctx.character_config.data.bump,
        &program.program_id,
    );
    update_character_bio_handler(ctx, address, bio)
}

/// Overwrites the leading entries of the lore of the personality that the
/// signer names `id`.
pub fn update_character_lore(
    ctx: &mut UpdateCharacterConfigField,
    program: &Program,
    id: String,
    lore: Vec<String>,
) -> (result: Result<(), AiNftError>)
    ensures
        match result {
            Err(e) => old(ctx).error(config_address(*old(ctx), *program, id@)) == Some(e)
                && *final(ctx) == *old(ctx),
            Ok(()) => {
                &&& old(ctx).error(config_address(*old(ctx), *program, id@)) is None
                &&& old(ctx).lore_set(*final(ctx), lore)
            },
        },
{
    let address = character_config_address(
        &ctx.authority,
        id.as_str(),
        ctx.character_config.data.bump,
        &program.program_id,
    );
    update_character_lore_handler(ctx, address, lore)
}

/// Overwrites the leading entries of the knowledge of the personality that the
/// signer names `id`.
pub fn update_character_knowledge(
    ctx: &mut UpdateCharacterConfigField,
    program: &Program,
    id: String,
    knowledge: Vec<String>,
) -> (result: Result<(), AiNftError>)
    ensures
        match result {
            Err(e) => old(ctx).error(config_address(*old(ctx), *program, id@)) == Some(e)
                && *final(ctx) == *old(ctx),
            Ok(()) => {
                &&& old(ctx).error(config_address(*old(ctx), *program, id@)) is None
                &&& old(ctx).knowledge_set(*final(ctx), knowledge)
            },
        },
{
    let address = character_config_address(
        &ctx.authority,
        id.as_str(),
        ctx.character_config.data.bump,
        &program.program_id,
    );
    update_character_knowledge_handler(ctx, address, knowledge)
}

/// Overwrites the leading entries of the topics of the personality that the
/// signer names `id`.
pub fn update_character_topics(
    ctx: &mut UpdateCharacterConfigField,
    program: &Program,
    id: String,
    topics: Vec<String>,
) -> (result: Result<(), AiNftError>)
    ensures
        match result {
            Err(e) => old(ctx).error(config_address(*old(ctx), *program, id@)) == Some(e)
                && *final(ctx) == *old(ctx),
            Ok(()) => {
                &&& old(ctx).error(config_address(*old(ctx), *program, id@)) is None
                &&& old(ctx).topics_set(*final(ctx), topics)
            },
        },
{
    let address = character_config_address(
        &ctx.authority,
        id.as_str(),
        ctx.character_config.data.bump,
        &program.program_id,
    );
    update_character_topics_handler(ctx, address, topics)
}

/// Replaces the three style tables of the personality that the signer names
/// `id`.
pub fn update_character_style(
    ctx: &mut UpdateCharacterConfigField,
    program: &Program,
    id: String,
    style: StyleConfigInput,
) -> (result: Result<(), AiNftError>)
    ensures
        match result {
            Err(e) => old(ctx).error(config_address(*old(ctx), *program, id@)) == Some(e)
                && *final(ctx) == *old(ctx),
            Ok(()) => {
                &&& old(ctx).error(config_address(*old(ctx), *program, id@)) is None
                &&& old(ctx).style_set(*final(ctx), style)
            },
        },
{
    let address = character_config_address(
        &ctx.authority,
        id.as_str(),
        ctx.character_config.data.bump,
        &program.program_id,
    );
    update_character_style_handler(ctx, address, style)
}

/// Overwrites the leading adjectives of the personality that the signer
/// names `id`.
pub fn update_character_adjectives(
    ctx: &mut UpdateCharacterConfigField,
    program: &Program,
    id: String,
    adjectives: Vec<String>,
) -> (result: Result<(), AiNftError>)
    ensures
        match result {
            Err(e) => old(ctx).error(config_address(*old(ctx), *program, id@)) == Some(e)
                && *final(ctx) == *old(ctx),
            Ok(()) => {
                &&& old(ctx).error(config_address(*old(ctx), *program, id@)) is None
                &&& old(ctx).adjectives_set(*final(ctx), adjectives)
            },
        },
{
    let address = character_config_address(
        &ctx.authority,
        id.as_str(),
        ctx.character_config.data.bump,
        &program.program_id,
    );
    update_character_adjectives_handler(ctx, address, adjectives)
}

/// Replaces the general style table of the personality that the signer names
/// `id`.
pub fn update_character_style_all(
    ctx: &mut UpdateCharacterConfigField,
    program: &Program,
    id: String,
    style_all: [[u8; 32]; 5],
) -> (result: Result<(), AiNftError>)
    ensures
        match result {
            Err(e) => old(ctx).error(config_address(*old(ctx), *program, id@)) == Some(e)
                && *final(ctx) == *old(ctx),
            Ok(()) => {
                &&& old(ctx).error(config_address(*old(ctx), *program, id@)) is None
                &&& old(ctx).style_all_set(*final(ctx), style_all)
            },
        },
{
    let address = character_config_address(
        &ctx.authority,
        id.as_str(),
        ctx.character_config.data.bump,
        &program.program_id,
    );
    update_character_style_all_handler(ctx, address, style_all)
}

/// Replaces the chat style table of the personality that the signer names
/// `id`.
pub fn update_character_style_chat(
    ctx: &mut UpdateCharacterConfigField,
    program: &Program,
    id: String,
    style_chat: [[u8; 32]; 5],
) -> (result: Result<(), AiNftError>)
    ensures
        match result {
            Err(e) => old(ctx).error(config_address(*old(ctx), *program, id@)) == Some(e)
                && *final(ctx) == *old(ctx),
            Ok(()) => {
                &&& old(ctx).error(config_address(*old(ctx), *program, id@)) is None
                &&& old(ctx).style_chat_set(*final(ctx), style_chat)
            },
        },
{
    let address = character_config_address(
        &ctx.authority,
        id.as_str(),
        ctx.character_config.data.bump,
        &program.program_id,
    );
    update_character_style_chat_handler(ctx, address, style_chat)
}

/// Replaces the post style table of the personality that the signer names
/// `id`.
pub fn update_character_style_post(
    ctx: &mut UpdateCharacterConfigField,
    program: &Program,
    id: String,
    style_post: [[u8; 32]; 5],
) -> (result: Result<(), AiNftError>)
    ensures
        match result {
            Err(e) => old(ctx).error(config_address(*old(ctx), *program, id@)) == Some(e)
                && *final(ctx) == *old(ctx),
            Ok(()) => {
                &&& old(ctx).error(config_address(*old(ctx), *program, id@)) is None
                &&& old(ctx).style_post_set(*final(ctx), style_post)
            },
        },
{
    let address = character_config_address(
        &ctx.authority,
        id.as_str(),
        ctx.character_config.data.bump,
        &program.program_id,
    );
    update_character_style_post_handler(ctx, address, style_post)
}

} // verus!
