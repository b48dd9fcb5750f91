use crate::error::AiNftError;
use crate::pubkey::Pubkey;
use crate::state::{AiCharacterNFT, AiNft, CharacterConfigInput};
use crate::token::{Account, Mint, TokenAccount};
use vstd::prelude::*;

verus! {

/// The records that a holder's update of a character touches.
#[derive(Clone, Debug, PartialEq, Eq)]
pub struct UpdateAiCharacter {
    /// The registry.
    pub ai_nft: Account<AiNft>,
    /// The character.
    pub ai_character: Account<AiCharacterNFT>,
    /// The wallet that signed; it must hold the character.
    pub authority: Pubkey,
    /// The character's mint.
    pub ai_character_mint: Mint,
    /// The signer's token account for the character.
    pub authority_ai_character_token_account: TokenAccount,
}

impl UpdateAiCharacter {
    /// Why the update is refused, if it is: the first condition, in this
    /// order, that does not hold.
    pub open spec fn error(&self) -> Option<AiNftError> {
        if self.ai_character.data.character_nft_mint != self.ai_character_mint.key {
            Some(AiNftError::InvalidAgentNftMint)
        } else if self.ai_character_mint.mint_authority != Some(self.ai_nft.key) {
            Some(AiNftError::InvalidMintAuthority)
        } else if self.authority_ai_character_token_account.mint != self.ai_character_mint.key {
            Some(AiNftError::InvalidAgentNftMint)
        } else if self.authority_ai_character_token_account.owner != self.authority {
            Some(AiNftError::InvalidOwner)
        } else if self.authority_ai_character_token_account.amount != 1 {
            Some(AiNftError::InvalidAgentNftTokenAccount)
        } else {
            None
        }
    }
}

/// Accepts a new personality from the holder of a character.
///
/// The signer must hold the character's token, minted under the registry.
/// The personality lives in its own record, so no record here changes.
pub fn update_character_config_handler(
    ctx: &mut UpdateAiCharacter,
    new_config: CharacterConfigInput,
) -> (result: Result<(), AiNftError>)
    ensures
        match result {
            Err(e) => old(ctx).error() == Some(e),
            Ok(()) => old(ctx).error() is None,
        },
        *final(ctx) == *old(ctx),
{
    if ctx.ai_character.data.character_nft_mint != ctx.ai_character_mint.key {
        return Err(AiNftError::InvalidAgentNftMint);
    }
    let minted_by_registry = match ctx.ai_character_mint.mint_authority {
        Some(key) => key == ctx.ai_nft.key,
        None => false,
    };
    if !minted_by_registry {
        return Err(AiNftError::InvalidMintAuthority);
    }
    if ctx.authority_ai_character_token_account.mint != ctx.ai_character_mint.key {
        return Err(AiNftError::InvalidAgentNftMint);
    }
    if ctx.authority_ai_character_token_account.owner != ctx.authority {
        return Err(AiNftError::InvalidOwner);
    }
    if ctx.authority_ai_character_token_account.amount != 1 {
        return Err(AiNftError::InvalidAgentNftTokenAccount);
    }
    ctx.ai_character.data.update_character_config(new_config)
}

} // verus!
