use crate::error::AiNftError;
use crate::pubkey::Pubkey;
use crate::state::AiNft;
use crate::token::{Account, Mint};
use vstd::prelude::*;

verus! {

/// A mint made elsewhere became the registry's credit mint.
#[derive(Clone, Copy, Debug, PartialEq, Eq)]
pub struct ExternalComputeMintSet {
    pub ai_nft: Pubkey,
    pub compute_mint: Pubkey,
}

/// The records that adopting a credit mint touches.
#[derive(Clone, Debug, PartialEq, Eq)]
pub struct SetExternalComputeMint {
    /// The registry.
    pub ai_nft: Account<AiNft>,
    /// The mint to adopt.
    pub external_compute_mint: Mint,
    /// The wallet that signed; it must administer the registry.
    pub authority: Pubkey,
}

/// Makes a mint that was created elsewhere the registry's credit mint.
///
/// Only the administrator may do so (`InvalidAuthority` otherwise), and only
/// while no credit mint is set (`ComputeMintAlreadyInitialized` otherwise).
/// A refusal changes nothing.
pub fn set_external_compute_mint_handler(
    ctx: &mut SetExternalComputeMint,
) -> (result: Result<ExternalComputeMintSet, AiNftError>)
    ensures
        old(ctx).ai_nft.data.authority != old(ctx).authority ==> result == Err::<
            ExternalComputeMintSet,
            AiNftError,
        >(AiNftError::InvalidAuthority),
        old(ctx).ai_nft.data.authority == old(ctx).authority && !old(
            ctx,
        ).ai_nft.data.compute_mint.is_zero() ==> result == Err::<
            ExternalComputeMintSet,
            AiNftError,
        >(AiNftError::ComputeMintAlreadyInitialized),
        old(ctx).ai_nft.data.authority == old(ctx).authority && old(
            ctx,
        ).ai_nft.data.compute_mint.is_zero() ==> result == Ok::<
            ExternalComputeMintSet,
            AiNftError,
        >(
            ExternalComputeMintSet {
                ai_nft: old(ctx).ai_nft.key,
                compute_mint: old(ctx).external_compute_mint.key,
            },
        ),
        result is Err ==> *final(ctx) == *old(ctx),
        result is Ok ==> *final(ctx) == (SetExternalComputeMint {
            ai_nft: Account {
                key: old(ctx).ai_nft.key,
                data: AiNft {
                    compute_mint: old(ctx).external_compute_mint.key,
                    ..old(ctx).ai_nft.data
                },
            },
            ..*old(ctx)
        }),
{
    if ctx.ai_nft.data.authority != ctx.authority {
        return Err(AiNftError::InvalidAuthority);
    }
    if !ctx.ai_nft.data.compute_mint.is_default() {
        return Err(AiNftError::ComputeMintAlreadyInitialized);
    }
    ctx.ai_nft.data.set_compute_mint(ctx.external_compute_mint.key);
    Ok(
        ExternalComputeMintSet {
            ai_nft: ctx.ai_nft.key,
            compute_mint: ctx.external_compute_mint.key,
        },
    )
}

} // verus!
