use crate::error::AiNftError;
use crate::pubkey::Pubkey;
use crate::state::{AiCharacterNFT, AiNft, ExecutionClient};
use crate::token::Account;
use vstd::prelude::*;

verus! {

/// A character was assigned an execution client.
#[derive(Clone, Copy, Debug, PartialEq, Eq)]
pub struct ExecutionClientUpdated {
    pub ai_character: Pubkey,
    pub new_execution_client: Pubkey,
}

/// The records that assigning an execution client touches.
#[derive(Clone, Debug, PartialEq, Eq)]
pub struct UpdateAiCharacterExecutionClient {
    /// The registry.
    pub ai_nft: Account<AiNft>,
    /// The character to reassign.
    pub ai_character: Account<AiCharacterNFT>,
    /// The wallet that signed.
    pub authority: Pubkey,
    /// The client to assign; it must be active.
    pub execution_client: Account<ExecutionClient>,
}

/// Assigns an active execution client to a character.
///
/// An inactive client is refused with `ExecutionClientNotActive`, and
/// nothing changes.
pub fn update_ai_character_execution_client_handler(
    ctx: &mut UpdateAiCharacterExecutionClient,
) -> (result: Result<ExecutionClientUpdated, AiNftError>)
    ensures
        !old(ctx).execution_client.data.active ==> result == Err::<
            ExecutionClientUpdated,
            AiNftError,
        >(AiNftError::ExecutionClientNotActive) && *final(ctx) == *old(ctx),
        old(ctx).execution_client.data.active ==> {
            &&& result is Ok
            &&& result->Ok_0.ai_character == old(ctx).ai_character.key
            &&& result->Ok_0.new_execution_client == old(ctx).execution_client.key
            &&& *final(ctx) == (UpdateAiCharacterExecutionClient {
                ai_character: Account {
                    key: old(ctx).ai_character.key,
                    data: AiCharacterNFT {
                        execution_client: old(ctx).execution_client.key,
                        ..old(ctx).ai_character.data
                    },
                },
                ..*old(ctx)
            })
        },
{
    if !ctx.execution_client.data.active {
        return Err(AiNftError::ExecutionClientNotActive);
    }
    ctx.ai_character.data.update_execution_client(ctx.execution_client.key);
    Ok(
        ExecutionClientUpdated {
            ai_character: ctx.ai_character.key,
            new_execution_client: ctx.execution_client.key,
        },
    )
}

} // verus!
