use crate::authority::seeds_view;
use crate::error::AiNftError;
use crate::pubkey::Pubkey;
use crate::state::config::CreateAiNftParams;
use vstd::prelude::*;
use vstd::string::StringSliceAdditionalSpecFns;

verus! {

/// The registry: one per deployment, parent of every execution client.
#[derive(Clone, Debug, PartialEq, Eq)]
pub struct AiNft {
    /// Who administers the registry.
    pub authority: Pubkey,
    /// The mint of the compute credit; all zero until one is set.
    pub compute_mint: Pubkey,
    pub bump: [u8; 1],
}

impl AiNft {
    /// Bytes a stored registry takes.
    pub const LEN: usize = 8 + 32 + 32 + 1;

    /// The seed list from which the registry's address is derived: the tag
    /// `app_ainft` and the bump.
    pub open spec fn spec_seeds(&self) -> Seq<Seq<u8>> {
        seq!["app_ainft".spec_bytes(), self.bump@]
    }

    /// The seed list from which the registry's address is derived.
    pub fn as_seeds(&self) -> (seeds: [&[u8]; 2])
        ensures
            seeds_view(seeds@) == self.spec_seeds(),
    {
        let seeds = ["app_ainft".as_bytes(), self.bump.as_slice()];
        assert(seeds_view(seeds@) =~= self.spec_seeds());
        seeds
    }

    /// A registry administered by `publisher`, with the credit mint that
    /// `params` names.
    pub fn try_new(
        bump: u8,
        publisher: Pubkey,
        params: &CreateAiNftParams,
    ) -> (result: Result<Self, AiNftError>)
        ensures
            result is Ok,
            result->Ok_0.authority == publisher,
            result->Ok_0.compute_mint == params.compute_mint,
            result->Ok_0.bump@ == seq![bump],
    {
        let registry = AiNft {
            authority: publisher,
            compute_mint: params.compute_mint,
            bump: [bump],
        };
        assert(registry.bump@ =~= seq![bump]);
        Ok(registry)
    }

    /// Replaces the credit mint.
    pub fn set_compute_mint(&mut self, compute_mint: Pubkey)
        ensures
            *final(self) == (AiNft { compute_mint, ..*old(self) }),
    {
        self.compute_mint = compute_mint;
    }

    /// Fails with `ComputeMintNotInitialized` exactly when the credit mint
    /// is the all-zero key.
    pub fn check_compute_mint_initialized(&self) -> (result: Result<(), AiNftError>)
        ensures
            self.compute_mint.is_zero() ==> result == Err::<(), AiNftError>(
                AiNftError::ComputeMintNotInitialized,
            ),
            !self.compute_mint.is_zero() ==> result is Ok,
    {
        if self.compute_mint.is_default() {
            return Err(AiNftError::ComputeMintNotInitialized);
        }
        Ok(())
    }
}

} // verus!
