use crate::error::AiNftError;
use crate::pubkey::Pubkey;
use crate::state::{AiCharacterNFT, AiNft};
use crate::token::{Account, TokenAccount};
use vstd::prelude::*;

verus! {

/// A character was given its compute account.
#[derive(Clone, Copy, Debug, PartialEq, Eq)]
pub struct AiCharacterComputeAccountCreated {
    pub ai_character: Pubkey,
    pub compute_token_account: Pubkey,
}

/// The records that giving a character its compute account touches.
#[derive(Clone, Debug, PartialEq, Eq)]
pub struct CreateAiCharacterComputeAccount {
    /// The registry.
    pub ai_nft: Account<AiNft>,
    /// The character.
    pub ai_character: Account<AiCharacterNFT>,
    /// The mint of the compute credit.
    pub compute_mint: Pubkey,
    /// The address of the character's compute account, to be created.
    pub ai_character_compute_token_account: Pubkey,
    /// The wallet that signed and pays.
    pub payer: Pubkey,
}

/// What the ledger must set up, and what is reported of it.
#[derive(Clone, Copy, Debug, PartialEq, Eq)]
pub struct ComputeAccountReceipt {
    /// The account to create: empty, holding compute credits, controlled by
    /// the character.
    pub compute_token_account: TokenAccount,
    pub event: AiCharacterComputeAccountCreated,
}

impl CreateAiCharacterComputeAccount {
    /// Why the account is not created, if it is not: the registry has no
    /// credit mint, or the mint offered is not the registry's.
    pub open spec fn error(&self) -> Option<AiNftError> {
        if self.ai_nft.data.compute_mint.is_zero() {
            Some(AiNftError::ComputeMintNotInitialized)
        } else if self.compute_mint != self.ai_nft.data.compute_mint {
            Some(AiNftError::InvalidComputeMint)
        } else {
            None
        }
    }
}

/// Records the compute account that a character pays its fees from.
///
/// A refusal changes nothing.
pub fn create_ai_character_compute_account_handler(
    ctx: &mut CreateAiCharacterComputeAccount,
) -> (result: Result<ComputeAccountReceipt, AiNftError>)
    ensures
        match result {
            Err(e) => old(ctx).error() == Some(e) && *final(ctx) == *old(ctx),
            Ok(receipt) => {
                &&& old(ctx).error() is None
                &&& receipt == (ComputeAccountReceipt {
                    compute_token_account: TokenAccount {
                        key: old(ctx).ai_character_compute_token_account,
                        mint: old(ctx).compute_mint,
                        owner: old(ctx).ai_character.key,
                        amount: 0,
                    },
                    event: AiCharacterComputeAccountCreated {
                        ai_character: old(ctx).ai_character.key,
                        compute_token_account: old(ctx).ai_character_compute_token_account,
                    },
                })
                &&& *final(ctx) == (CreateAiCharacterComputeAccount {
                    ai_character: Account {
                        key: old(ctx).ai_character.key,
                        data: AiCharacterNFT {
                            compute_token_account: old(ctx).ai_character_compute_token_account,
                            ..old(ctx).ai_character.data
                        },
                    },
                    ..*old(ctx)
                })
            },
        },
{
    if ctx.ai_nft.data.compute_mint.is_default() {
        return Err(AiNftError::ComputeMintNotInitialized);
    }
    if ctx.compute_mint != ctx.ai_nft.data.compute_mint {
        return Err(AiNftError::InvalidComputeMint);
    }
    ctx.ai_character.data.update_compute_token_account(ctx.ai_character_compute_token_account);
    Ok(
        ComputeAccountReceipt {
            compute_token_account: TokenAccount {
                key: ctx.ai_character_compute_token_account,
                mint: ctx.compute_mint,
                owner: ctx.ai_character.key,
                amount: 0,
            },
            event: AiCharacterComputeAccountCreated {
                ai_character: ctx.ai_character.key,
                compute_token_account: ctx.ai_character_compute_token_account,
            },
        },
    )
}

} // verus!
