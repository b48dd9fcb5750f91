pub mod create_ai_character_compute_account;
pub mod create_app_ainft;
pub mod create_character_config;
pub mod create_collection;
pub mod create_compute_mint;
pub mod create_stake_account;
pub mod finalize_preminting;
pub mod mint_compute;
pub mod premint_nft;
pub mod purchase_preminted_nft;
pub mod register_execution_client;
pub mod send_message;
pub mod set_external_compute_mint;
pub mod stake_compute;
pub mod unstake_compute;
pub mod update_ai_character_config;
pub mod update_ai_character_execution_client;
pub mod update_character_config;
pub mod update_character_config_fields;
pub mod update_collection;
pub mod update_collection_whitelist;
pub mod update_execution_client_config;
pub mod write_response;

pub use create_ai_character_compute_account::{
    create_ai_character_compute_account_handler, AiCharacterComputeAccountCreated,
    ComputeAccountReceipt, CreateAiCharacterComputeAccount,
};
pub use create_app_ainft::{create_app_ainft_handler, registry_address, CreateAppAiNft};
pub use create_character_config::{
    character_config_address, create_character_config_handler, CharacterConfigCreated,
    CreateCharacterConfig,
};
pub use create_collection::{create_collection_handler, CollectionReceipt, CreateCollection};
pub use create_compute_mint::{
    create_compute_mint_handler, ComputeMintCreated, ComputeMintReceipt, CreateComputeMint,
};
pub use create_stake_account::{
    create_stake_account_handler, CreateStakeAccount, StakeAccountCreated,
};
pub use finalize_preminting::{finalize_preminting_handler, FinalizePreminting};
pub use mint_compute::{mint_compute_handler, ComputeTokensMinted, MintCompute, MintComputeReceipt};
pub use premint_nft::{
    character_address, create_preminted_nft_handler, CreatePremintedNft, PremintReceipt,
};
pub use purchase_preminted_nft::{
    purchase_preminted_nft_handler, Payment, PurchasePremintedNft, PurchaseReceipt,
};
pub use register_execution_client::{
    execution_client_address, register_execution_client_handler, ExecutionClientRegistered,
    RegisterExecutionClient, RegistrationReceipt,
};
pub use send_message::{send_message_handler, SendMessage, SendReceipt};
pub use set_external_compute_mint::{
    set_external_compute_mint_handler, ExternalComputeMintSet, SetExternalComputeMint,
};
pub use stake_compute::{stake_compute_handler, StakeCompute, StakeReceipt};
pub use unstake_compute::{unstake_compute_handler, UnstakeCompute, UnstakeReceipt};
pub use update_ai_character_config::{
    update_ai_character_config_handler, AiCharacterConfigUpdated, UpdateAiCharacterConfig,
};
pub use update_ai_character_execution_client::{
    update_ai_character_execution_client_handler, ExecutionClientUpdated,
    UpdateAiCharacterExecutionClient,
};
pub use update_character_config::{update_character_config_handler, UpdateAiCharacter};
pub use update_character_config_fields::{
    update_character_adjectives_handler, update_character_bio_handler,
    update_character_clients_handler, update_character_knowledge_handler,
    update_character_lore_handler, update_character_model_provider_handler,
    update_character_name_handler, update_character_style_all_handler,
    update_character_style_chat_handler, update_character_style_handler,
    update_character_style_post_handler, update_character_topics_handler,
    update_character_voice_settings_handler, UpdateCharacterConfigField,
};
pub use update_collection::{update_collection_handler, UpdateCollection};
pub use update_collection_whitelist::{
    clear_collection_whitelist_handler, update_collection_whitelist_handler,
    UpdateCollectionWhitelist, WhitelistAction,
};
pub use update_execution_client_config::{
    set_execution_client_active_handler, update_execution_client_config_handler,
    UpdateExecutionClientConfig,
};
pub use write_response::{
    write_response_handler, ResponseReceipt, ResponseWithActions, WriteResponse,
};
