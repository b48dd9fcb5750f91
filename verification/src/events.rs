//! What the program reports to off-ledger indexers. An operation hands its
//! event back to the caller, who publishes it.
use crate::pubkey::Pubkey;
use vstd::prelude::*;

verus! {

#[derive(Clone, Debug, PartialEq, Eq)]
pub struct CollectionCreated {
    pub collection: Pubkey,
    pub authority: Pubkey,
}

#[derive(Clone, Debug, PartialEq, Eq)]
pub struct AINFTAppInitialized {
    pub authority: Pubkey,
}

#[derive(Clone, Debug, PartialEq, Eq)]
pub struct AiNftMinted {
    pub ai_nft: Pubkey,
    pub collection: Pubkey,
    pub owner: Pubkey,
}

#[derive(Clone, Debug, PartialEq, Eq)]
pub struct MessageSent {
    pub ai_nft: Pubkey,
    pub message: Pubkey,
    pub sender: Pubkey,
}

#[derive(Clone, Debug, PartialEq, Eq)]
pub struct ResponseWritten {
    pub ai_nft: Pubkey,
    pub message: Pubkey,
    pub execution_client: Pubkey,
}

#[derive(Clone, Debug, PartialEq, Eq)]
pub struct ExecutionClientStaked {
    pub client: Pubkey,
    pub authority: Pubkey,
    pub amount: u64,
}

#[derive(Clone, Debug, PartialEq, Eq)]
pub struct ComputeTokensTransferred {
    pub from: Pubkey,
    pub to: Pubkey,
    pub amount: u64,
}

#[derive(Clone, Debug, PartialEq, Eq)]
pub struct ExecutionPriceUpdated {
    pub client: Pubkey,
    pub new_price: u64,
}

#[derive(Clone, Debug, PartialEq, Eq)]
pub struct ExecutionClientConfigUpdated {
    pub client: Pubkey,
    pub new_gas: u64,
}

#[derive(Clone, Debug, PartialEq, Eq)]
pub struct CharacterConfigUpdated {
    pub ai_nft: Pubkey,
    pub owner: Pubkey,
    pub new_config: String,
}

#[derive(Clone, Debug, PartialEq, Eq)]
pub struct ComputeTokensTopUp {
    pub ai_nft: Pubkey,
    pub from: Pubkey,
    pub to: Pubkey,
    pub amount: u64,
}

#[derive(Clone, Debug, PartialEq, Eq)]
pub struct TokenDonation {
    pub ai_nft: Pubkey,
    pub donor: Pubkey,
    pub recipient: Pubkey,
    pub token_mint: Pubkey,
    pub amount: u64,
}

/// Credits were staked. The exchange rate is in billionths of a credit per
/// claim token, and absent where there is none.
#[derive(Clone, Debug, PartialEq, Eq)]
pub struct ComputeStaked {
    pub execution_client: Pubkey,
    pub staker: Pubkey,
    pub compute_amount: u64,
    pub staked_amount: u64,
    pub exchange_rate: Option<u64>,
}

/// Claims were redeemed. The exchange rate is in billionths of a credit per
/// claim token, and absent where there is none.
#[derive(Clone, Debug, PartialEq, Eq)]
pub struct ComputeUnstaked {
    pub execution_client: Pubkey,
    pub staker: Pubkey,
    pub compute_amount: u64,
    pub staked_amount: u64,
    pub exchange_rate: Option<u64>,
}

#[derive(Clone, Debug, PartialEq, Eq)]
pub struct NFTPreminted {
    pub collection: Pubkey,
    pub nft_mint: Pubkey,
    pub authority: Pubkey,
    pub price: u64,
}

#[derive(Clone, Debug, PartialEq, Eq)]
pub struct PremintingFinalized {
    pub collection: Pubkey,
    pub authority: Pubkey,
    pub total_minted: u64,
}

#[derive(Clone, Debug, PartialEq, Eq)]
pub struct CollectionUpdated {
    pub collection: Pubkey,
    pub authority: Pubkey,
}

/// A whitelist changed: `action` is 0 for an addition, 1 for a removal and
/// 2 for a clearing of the whole list.
#[derive(Clone, Debug, PartialEq, Eq)]
pub struct CollectionWhitelistUpdated {
    pub collection: Pubkey,
    pub authority: Pubkey,
    pub wallet: Pubkey,
    pub action: u8,
}

} // verus!
