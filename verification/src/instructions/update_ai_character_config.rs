use crate::error::AiNftError;
use crate::pubkey::Pubkey;
use crate::state::{AiCharacterNFT, CharacterConfig};
use crate::token::{Account, TokenAccount};
use vstd::prelude::*;

verus! {

/// A character was given another personality.
#[derive(Clone, Copy, Debug, PartialEq, Eq)]
pub struct AiCharacterConfigUpdated {
    pub ai_character: Pubkey,
    pub character_config: Pubkey,
    pub authority: Pubkey,
}

/// The records that giving a character another personality touches.
#[derive(Clone, Debug, PartialEq, Eq)]
pub struct UpdateAiCharacterConfig {
    /// The character.
    pub ai_character: Account<AiCharacterNFT>,
    /// The personality to use from now on.
    pub new_character_config: Account<CharacterConfig>,
    /// The wallet that signed; it must own both the character and the
    /// personality.
    pub authority: Pubkey,
    /// The token account that holds the character.
    pub ai_character_token_account: TokenAccount,
}

impl UpdateAiCharacterConfig {
    /// Why the change is refused, if it is: the first condition, in this
    /// order, that does not hold.
    pub open spec fn error(&self) -> Option<AiNftError> {
        if self.ai_character.data.character_nft_mint != self.ai_character_token_account.mint {
            Some(AiNftError::InvalidAgentNftMint)
        } else if self.new_character_config.data.authority != self.authority {
            Some(AiNftError::InvalidOwner)
        } else if self.ai_character_token_account.owner != self.authority {
            Some(AiNftError::InvalidOwner)
        } else if self.ai_character_token_account.amount != 1 {
            Some(AiNftError::InvalidAgentNftTokenAccount)
        } else {
            None
        }
    }
}

/// Points a character at another personality record.
///
/// The signer must hold the character's token and own the personality. A
/// refusal changes nothing.
pub fn update_ai_character_config_handler(
    ctx: &mut UpdateAiCharacterConfig,
) -> (result: Result<AiCharacterConfigUpdated, AiNftError>)
    ensures
        match result {
            Err(e) => old(ctx).error() == Some(e) && *final(ctx) == *old(ctx),
            Ok(event) => {
                &&& old(ctx).error() is None
                &&& event == (AiCharacterConfigUpdated {
                    ai_character: old(ctx).ai_character.key,
                    character_config: old(ctx).new_character_config.key,
                    authority: old(ctx).authority,
                })
                &&& *final(ctx) == (UpdateAiCharacterConfig {
                    ai_character: Account {
                        key: old(ctx).ai_character.key,
                        data: AiCharacterNFT {
                            character_config_pubkey: old(ctx).new_character_config.key,
                            ..old(ctx).ai_character.data
                        },
                    },
                    ..*old(ctx)
                })
            },
        },
{
    if ctx.ai_character.data.character_nft_mint != ctx.ai_character_token_account.mint {
        return Err(AiNftError::InvalidAgentNftMint);
    }
    if ctx.new_character_config.data.authority != ctx.authority {
        return Err(AiNftError::InvalidOwner);
    }
    if ctx.ai_character_token_account.owner != ctx.authority {
        return Err(AiNftError::InvalidOwner);
    }
    if ctx.ai_character_token_account.amount != 1 {
        return Err(AiNftError::InvalidAgentNftTokenAccount);
    }
    ctx.ai_character.data.update_character_config_pubkey(ctx.new_character_config.key);
    Ok(
        AiCharacterConfigUpdated {
            ai_character: ctx.ai_character.key,
            character_config: ctx.new_character_config.key,
            authority: ctx.authority,
        },
    )
}

} // verus!
