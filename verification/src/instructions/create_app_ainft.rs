use crate::authority::{address_bytes, derive_address, is_address, program_address, seeds_view};
use crate::error::AiNftError;
use crate::events::AINFTAppInitialized;
use crate::pubkey::Pubkey;
use crate::state::{AiNft, CreateAiNftParams};
use crate::token::Account;
use vstd::prelude::*;
use vstd::string::StringSliceAdditionalSpecFns;

verus! {

/// The records that creating the registry touches.
#[derive(Clone, Debug, PartialEq, Eq)]
pub struct CreateAppAiNft {
    /// The slot the registry is created in; it must be empty.
    pub ai_nft: Account<Option<AiNft>>,
    /// The bump of the slot's address.
    pub ai_nft_bump: u8,
    /// The wallet that signed and becomes the registry's administrator.
    pub payer: Pubkey,
}

/// The seed list from which the registry's address is derived: the tag
/// `app_ainft` and the bump.
pub open spec fn registry_seeds(bump: u8) -> Seq<Seq<u8>> {
    seq!["app_ainft".spec_bytes(), seq![bump]]
}

/// The address derived under `program_id` for the registry, if the seeds
/// derive one.
pub fn registry_address(bump: u8, program_id: &Pubkey) -> (address: Option<Pubkey>)
    ensures
        address_bytes(address) == program_address(registry_seeds(bump), program_id.bytes@),
{
    let bump_seed = [bump];
    let seeds = ["app_ainft".as_bytes(), bump_seed.as_slice()];
    assert(bump_seed@ =~= seq![bump]);
    assert(seeds_view(seeds@) =~= registry_seeds(bump));
    derive_address(seeds.as_slice(), program_id)
}

impl CreateAppAiNft {
    /// Why the registry is not created, if it is not: the slot is taken, or
    /// it is not at the address `registry_address` derived from the tag
    /// `app_ainft` and the bump (both `InvalidAiNft`).
    pub open spec fn error(&self, registry_address: Option<Seq<u8>>) -> Option<AiNftError> {
        if self.ai_nft.data is Some || registry_address != Some(self.ai_nft.key.bytes@) {
            Some(AiNftError::InvalidAiNft)
        } else {
            None
        }
    }

    /// What a successful creation from `params` leaves behind: the records
    /// `after` and the `event`.
    pub open spec fn created(
        &self,
        after: CreateAppAiNft,
        event: AINFTAppInitialized,
        params: CreateAiNftParams,
    ) -> bool {
        &&& event == (AINFTAppInitialized { authority: self.payer })
        &&& after.ai_nft.key == self.ai_nft.key
        &&& after.ai_nft.data is Some
        &&& after.ai_nft.data->0.authority == self.payer
        &&& after.ai_nft.data->0.compute_mint == params.compute_mint
        &&& after.ai_nft.data->0.bump@ == seq![self.ai_nft_bump]
        &&& after.ai_nft.data->0.spec_seeds() == registry_seeds(self.ai_nft_bump)
        &&& after.ai_nft_bump == self.ai_nft_bump
        &&& after.payer == self.payer
    }
}

/// Creates the one registry of a deployment, administered by the signer,
/// with the credit mint that `params` names.
///
/// `registry_address` is the address derived for the registry; the slot
/// offered must lie there. Any failure leaves the slot as it was.
pub fn create_app_ainft_handler(
    ctx: &mut CreateAppAiNft,
    registry_address: Option<Pubkey>,
    params: CreateAiNftParams,
) -> (result: Result<AINFTAppInitialized, AiNftError>)
    ensures
        match result {
            Err(e) => old(ctx).error(address_bytes(registry_address)) == Some(e) && *final(ctx)
                == *old(ctx),
            Ok(event) => {
                &&& old(ctx).error(address_bytes(registry_address)) is None
                &&& old(ctx).created(*final(ctx), event, params)
            },
        },
{
    if ctx.ai_nft.data.is_some() {
        return Err(AiNftError::InvalidAiNft);
    }
    if !is_address(&registry_address, &ctx.ai_nft.key) {
        return Err(AiNftError::InvalidAiNft);
    }
    let registry = match AiNft::try_new(ctx.ai_nft_bump, ctx.payer, &params) {
        Ok(registry) => registry,
        Err(e) => {
            return Err(e);
        },
    };
    ctx.ai_nft.data = Some(registry);
    Ok(AINFTAppInitialized { authority: ctx.payer })
}

} // verus!
