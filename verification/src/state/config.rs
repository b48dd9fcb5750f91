use crate::pubkey::Pubkey;
use vstd::prelude::*;

verus! {

/// What a registry is created from.
#[derive(Clone, Debug, PartialEq, Eq)]
pub struct CreateAiNftParams {
    pub name: String,
    pub compute_mint: Pubkey,
}

} // verus!
