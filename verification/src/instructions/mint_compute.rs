use crate::authority::{derived_address, Authority};
use crate::error::AiNftError;
use crate::pubkey::Pubkey;
use crate::state::AiNft;
use crate::token::{Account, Mint, MintTo, TokenAccount};
use vstd::prelude::*;

verus! {

/// Compute credits were minted.
#[derive(Clone, Copy, Debug, PartialEq, Eq)]
pub struct ComputeTokensMinted {
    pub ai_nft: Pubkey,
    pub amount: u64,
    pub destination: Pubkey,
}

/// The records that minting compute credits touches.
#[derive(Clone, Debug, PartialEq, Eq)]
pub struct MintCompute {
    /// The registry, which holds the right to mint.
    pub ai_nft: Account<AiNft>,
    /// The credit mint.
    pub compute_mint: Mint,
    /// The account that receives the credits.
    pub recipient_token_account: TokenAccount,
    /// The wallet the credits are for.
    pub destination_user: Pubkey,
    /// The wallet that signed; it must administer the registry.
    pub authority: Pubkey,
}

/// What the ledger must carry out for a minting, and what is reported of
/// it.
#[derive(Debug)]
pub struct MintComputeReceipt {
    pub mint_to: MintTo,
    pub event: ComputeTokensMinted,
}

impl MintCompute {
    /// Why nothing is minted, if nothing is: the first condition, in this
    /// order, that does not hold. `registry_address` is the address that
    /// the registry's seeds derive.
    pub open spec fn error(&self, registry_address: Option<Seq<u8>>) -> Option<AiNftError> {
        if self.ai_nft.data.authority != self.authority {
            Some(AiNftError::InvalidAuthority)
        } else if self.ai_nft.data.compute_mint.is_zero() {
            Some(AiNftError::ComputeMintNotInitialized)
        } else if self.compute_mint.key != self.ai_nft.data.compute_mint
            || self.recipient_token_account.mint != self.compute_mint.key {
            Some(AiNftError::InvalidComputeMint)
        } else if self.recipient_token_account.owner != self.destination_user {
            Some(AiNftError::InvalidTokenOwner)
        } else if registry_address != Some(self.ai_nft.key.bytes@) {
            Some(AiNftError::InvalidAiNft)
        } else {
            None
        }
    }

    /// What a successful order to mint `amount` holds.
    pub open spec fn minted(&self, receipt: MintComputeReceipt, amount: u64) -> bool {
        &&& receipt.mint_to.mint == self.compute_mint.key
        &&& receipt.mint_to.to == self.recipient_token_account.key
        &&& receipt.mint_to.amount == amount
        &&& receipt.mint_to.authority.spec_account() == self.ai_nft.key
        &&& receipt.mint_to.authority.spec_is_derived()
        &&& receipt.event == (ComputeTokensMinted {
            ai_nft: self.ai_nft.key,
            amount,
            destination: self.recipient_token_account.key,
        })
    }
}

/// Orders `amount` new compute credits for a user, minted under the
/// registry's authority.
///
/// `registry_authority` is the capability derived from the registry's
/// seeds; it must control the registry's own address. Only the registry's
/// administrator may mint. No record changes.
pub fn mint_compute_handler(
    ctx: &MintCompute,
    registry_authority: Option<Authority>,
    amount: u64,
) -> (result: Result<MintComputeReceipt, AiNftError>)
    ensures
        match result {
            Err(e) => ctx.error(derived_address(registry_authority)) == Some(e),
            Ok(receipt) => {
                &&& ctx.error(derived_address(registry_authority)) is None
                &&& ctx.minted(receipt, amount)
                &&& Some(receipt.mint_to.authority) == registry_authority
            },
        },
{
    if ctx.ai_nft.data.authority != ctx.authority {
        return Err(AiNftError::InvalidAuthority);
    }
    if ctx.ai_nft.data.compute_mint.is_default() {
        return Err(AiNftError::ComputeMintNotInitialized);
    }
    if ctx.compute_mint.key != ctx.ai_nft.data.compute_mint || ctx.recipient_token_account.mint
        != ctx.compute_mint.key {
        return Err(AiNftError::InvalidComputeMint);
    }
    if ctx.recipient_token_account.owner != ctx.destination_user {
        return Err(AiNftError::InvalidTokenOwner);
    }
    let registry_key = ctx.ai_nft.key;
    let registry_authority = match registry_authority {
        Some(a) => a,
        None => {
            return Err(AiNftError::InvalidAiNft);
        },
    };
    proof {
        Pubkey::lemma_same_bytes(registry_authority.spec_account(), registry_key);
    }
    if !registry_authority.controls_by_derivation(&registry_key) {
        return Err(AiNftError::InvalidAiNft);
    }
    Ok(
        MintComputeReceipt {
            mint_to: MintTo {
                mint: ctx.compute_mint.key,
                to: ctx.recipient_token_account.key,
                authority: registry_authority,
                amount,
            },
            event: ComputeTokensMinted {
                ai_nft: ctx.ai_nft.key,
                amount,
                destination: ctx.recipient_token_account.key,
            },
        },
    )
}

} // verus!
