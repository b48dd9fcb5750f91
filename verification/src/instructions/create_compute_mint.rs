use crate::authority::{derived_address, Authority};
use crate::error::AiNftError;
use crate::pubkey::Pubkey;
use crate::state::AiNft;
use crate::token::{Account, Mint};
use vstd::prelude::*;

verus! {

/// Decimals of the credit mint that the program creates.
pub const COMPUTE_MINT_DECIMALS: u8 = 9;

/// The registry's own credit mint was created.
#[derive(Clone, Copy, Debug, PartialEq, Eq)]
pub struct ComputeMintCreated {
    pub ai_nft: Pubkey,
    pub compute_mint: Pubkey,
}

/// The records that creating the registry's own credit mint touches.
#[derive(Clone, Debug, PartialEq, Eq)]
pub struct CreateComputeMint {
    /// The registry.
    pub ai_nft: Account<AiNft>,
    /// The address of the mint, to be created.
    pub compute_mint: Pubkey,
    /// The wallet that signed and pays.
    pub payer: Pubkey,
}

/// What the ledger must set up for the new credit mint, and what is
/// reported of it.
#[derive(Debug)]
pub struct ComputeMintReceipt {
    /// The mint to create: nothing minted yet, and only the registry may
    /// mint.
    pub compute_mint: Mint,
    /// The registry's derived authority, under which the mint is described.
    pub authority: Authority,
    pub event: ComputeMintCreated,
}

impl CreateComputeMint {
    /// Why the mint is not created, if it is not: the registry has a credit
    /// mint already (`ComputeMintNotInitialized`), or is not at the address
    /// `registry_address` that its seeds derive (`InvalidAiNft`).
    pub open spec fn error(&self, registry_address: Option<Seq<u8>>) -> Option<AiNftError> {
        if !self.ai_nft.data.compute_mint.is_zero() {
            Some(AiNftError::ComputeMintNotInitialized)
        } else if registry_address != Some(self.ai_nft.key.bytes@) {
            Some(AiNftError::InvalidAiNft)
        } else {
            None
        }
    }

    /// What a successful creation leaves behind: the records `after` and
    /// the `receipt`.
    pub open spec fn created(&self, after: CreateComputeMint, receipt: ComputeMintReceipt) -> bool {
        &&& receipt.compute_mint == (Mint {
            key: self.compute_mint,
            mint_authority: Some(self.ai_nft.key),
            supply: 0,
            decimals: COMPUTE_MINT_DECIMALS,
        })
        &&& receipt.authority.spec_account() == self.ai_nft.key
        &&& receipt.authority.spec_is_derived()
        &&& receipt.event == (ComputeMintCreated {
            ai_nft: self.ai_nft.key,
            compute_mint: self.compute_mint,
        })
        &&& after == (CreateComputeMint {
            ai_nft: Account {
                key: self.ai_nft.key,
                data: AiNft { compute_mint: self.compute_mint, ..self.ai_nft.data },
            },
            ..*self
        })
    }
}

/// Gives the registry a credit mint of its own.
///
/// `registry_authority` is the capability derived from the registry's
/// seeds; it must control the registry's own address. Any failure leaves
/// the registry as it was.
pub fn create_compute_mint_handler(
    ctx: &mut CreateComputeMint,
    registry_authority: Option<Authority>,
) -> (result: Result<ComputeMintReceipt, AiNftError>)
    ensures
        match result {
            Err(e) => {
                &&& old(ctx).error(derived_address(registry_authority)) == Some(e)
                &&& *final(ctx) == *old(ctx)
            },
            Ok(receipt) => {
                &&& old(ctx).error(derived_address(registry_authority)) is None
                &&& old(ctx).created(*final(ctx), receipt)
                &&& Some(receipt.authority) == registry_authority
            },
        },
{
    if !ctx.ai_nft.data.compute_mint.is_default() {
        return Err(AiNftError::ComputeMintNotInitialized);
    }
    let registry_key = ctx.ai_nft.key;
    let registry_authority = match registry_authority {
        Some(a) => a,
        None => {
            return Err(AiNftError::InvalidAiNft);
        },
    };
    proof {
        Pubkey::lemma_same_bytes(registry_authority.spec_account(), registry_key);
    }
    if !registry_authority.controls_by_derivation(&registry_key) {
        return Err(AiNftError::InvalidAiNft);
    }
    ctx.ai_nft.data.set_compute_mint(ctx.compute_mint);
    Ok(
        ComputeMintReceipt {
            compute_mint: Mint {
                key: ctx.compute_mint,
                mint_authority: Some(registry_key),
                supply: 0,
                decimals: COMPUTE_MINT_DECIMALS,
            },
            authority: registry_authority,
            event: ComputeMintCreated { ai_nft: registry_key, compute_mint: ctx.compute_mint },
        },
    )
}

} // verus!
