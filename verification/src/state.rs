pub mod ai_character;
pub mod ai_nft;
pub mod ai_nft_collection;
pub mod character_config;
pub mod config;
pub mod execution_client;
pub mod message;
pub mod message_constants;
pub mod stake_account;

pub use ai_character::AiCharacterNFT;
pub use ai_nft::AiNft;
pub use ai_nft_collection::AINFTCollection;
pub use character_config::{
    CharacterConfig, CharacterConfigInput, Settings, SettingsInput, StyleConfig, StyleConfigInput,
    VoiceSettings, VoiceSettingsInput,
};
pub use config::CreateAiNftParams;
pub use execution_client::{ExecutionClient, GAS_DECIMALS, GAS_DECIMALS_MULTIPLIER, MAX_GAS};
pub use message::MessageAiCharacter;
pub use stake_account::Staker;
