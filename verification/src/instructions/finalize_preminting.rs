use crate::error::AiNftError;
use crate::events::PremintingFinalized;
use crate::pubkey::Pubkey;
use crate::state::AINFTCollection;
use crate::token::Account;
use vstd::prelude::*;

verus! {

/// The records that finalizing a collection's preminting touches.
#[derive(Clone, Debug, PartialEq, Eq)]
pub struct FinalizePreminting {
    /// The collection to finalize.
    pub collection: Account<AINFTCollection>,
    /// The wallet that signed; it must own the collection.
    pub authority: Pubkey,
}

/// Closes the preminting of a collection for good, and reports how many
/// characters were minted.
///
/// Only the owner may do so (`InvalidCollectionAuthority` otherwise, with
/// nothing changed). Finalizing twice is allowed and changes nothing more.
pub fn finalize_preminting_handler(
    ctx: &mut FinalizePreminting,
    collection_name: String,
) -> (result: Result<PremintingFinalized, AiNftError>)
    ensures
        old(ctx).collection.data.authority != old(ctx).authority ==> result == Err::<
            PremintingFinalized,
            AiNftError,
        >(AiNftError::InvalidCollectionAuthority) && *final(ctx) == *old(ctx),
        old(ctx).collection.data.authority == old(ctx).authority ==> result == Ok::<
            PremintingFinalized,
            AiNftError,
        >(
            PremintingFinalized {
                collection: old(ctx).collection.key,
                authority: old(ctx).collection.data.authority,
                total_minted: old(ctx).collection.data.mint_count,
            },
        ) && *final(ctx) == (FinalizePreminting {
            collection: Account {
                key: old(ctx).collection.key,
                data: AINFTCollection { preminting_finalized: true, ..old(ctx).collection.data },
            },
            ..*old(ctx)
        }),
{
    if ctx.collection.data.authority != ctx.authority {
        return Err(AiNftError::InvalidCollectionAuthority);
    }
    ctx.collection.data.preminting_finalized = true;
    Ok(
        PremintingFinalized {
            collection: ctx.collection.key,
            authority: ctx.collection.data.authority,
            total_minted: ctx.collection.data.mint_count,
        },
    )
}

} // verus!
