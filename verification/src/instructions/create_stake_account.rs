use crate::authority::{address_bytes, is_address};
use crate::error::AiNftError;
use crate::pubkey::Pubkey;
use crate::state::{AiNft, ExecutionClient, Staker};
use crate::token::Account;
use vstd::prelude::*;

verus! {

/// A staker's position was opened.
#[derive(Clone, Copy, Debug, PartialEq, Eq)]
pub struct StakeAccountCreated {
    pub authority: Pubkey,
    pub execution_client: Pubkey,
    pub staker: Pubkey,
}

/// The records that opening a position touches.
#[derive(Clone, Debug, PartialEq, Eq)]
pub struct CreateStakeAccount {
    /// The registry.
    pub ai_nft: Account<AiNft>,
    /// The client to stake with.
    pub execution_client: Account<ExecutionClient>,
    /// The slot the position is created in; it must be empty.
    pub staker: Account<Option<Staker>>,
    /// The bump of the slot's address.
    pub staker_bump: u8,
    /// The mint of the compute credit.
    pub compute_mint: Pubkey,
    /// The staker, who signed.
    pub authority: Pubkey,
}

impl CreateStakeAccount {
    /// Why the position is not opened, if it is not: the first condition,
    /// in this order, that does not hold. `position_address` is the address
    /// derived for the position from the client, the signer and the bump.
    pub open spec fn error(&self, position_address: Option<Seq<u8>>) -> Option<AiNftError> {
        if self.ai_nft.data.compute_mint.is_zero() {
            Some(AiNftError::ComputeMintNotInitialized)
        } else if self.execution_client.data.ai_nft != self.ai_nft.key {
            Some(AiNftError::InvalidAiNft)
        } else if !self.execution_client.data.active {
            Some(AiNftError::ExecutionClientNotActive)
        } else if self.staker.data is Some {
            Some(AiNftError::StakeAccountAlreadyExists)
        } else if self.compute_mint != self.ai_nft.data.compute_mint {
            Some(AiNftError::InvalidComputeMint)
        } else if position_address != Some(self.staker.key.bytes@) {
            Some(AiNftError::InvalidStaker)
        } else {
            None
        }
    }
}

impl CreateStakeAccount {
    /// What a successful opening in `epoch` leaves behind: the records
    /// `after` and the `event`.
    pub open spec fn opened(
        &self,
        after: CreateStakeAccount,
        event: StakeAccountCreated,
        epoch: u64,
    ) -> bool {
        &&& event.authority == self.authority
        &&& event.execution_client == self.execution_client.key
        &&& event.staker == self.staker.key
        &&& after == (CreateStakeAccount {
            staker: Account {
                key: self.staker.key,
                data: Some(
                    Staker {
                        authority: self.authority,
                        execution_client: self.execution_client.key,
                        amount: 0,
                        last_stake_epoch: epoch,
                        unstaking_epoch: None,
                        total_rewards_claimed: 0,
                        bump: self.staker_bump,
                    },
                ),
            },
            ..*self
        })
    }
}

/// Opens the signer's position with an execution client in `epoch`, holding
/// no claims yet.
///
/// `position_address` is the address derived for the position; the slot
/// offered must lie there. Any failure leaves every record as it was.
pub fn create_stake_account_handler(
    ctx: &mut CreateStakeAccount,
    position_address: Option<Pubkey>,
    epoch: u64,
) -> (result: Result<StakeAccountCreated, AiNftError>)
    ensures
        match result {
            Err(e) => old(ctx).error(address_bytes(position_address)) == Some(e) && *final(ctx)
                == *old(ctx),
            Ok(event) => {
                &&& old(ctx).error(address_bytes(position_address)) is None
                &&& old(ctx).opened(*final(ctx), event, epoch)
            },
        },
{
    if ctx.ai_nft.data.compute_mint.is_default() {
        return Err(AiNftError::ComputeMintNotInitialized);
    }
    if ctx.execution_client.data.ai_nft != ctx.ai_nft.key {
        return Err(AiNftError::InvalidAiNft);
    }
    if !ctx.execution_client.data.active {
        return Err(AiNftError::ExecutionClientNotActive);
    }
    if ctx.staker.data.is_some() {
        return Err(AiNftError::StakeAccountAlreadyExists);
    }
    if ctx.compute_mint != ctx.ai_nft.data.compute_mint {
        return Err(AiNftError::InvalidComputeMint);
    }
    if !is_address(&position_address, &ctx.staker.key) {
        return Err(AiNftError::InvalidStaker);
    }
    ctx.staker.data = Some(
        Staker::new(ctx.authority, ctx.execution_client.key, 0, ctx.staker_bump, epoch),
    );
    Ok(
        StakeAccountCreated {
            authority: ctx.authority,
            execution_client: ctx.execution_client.key,
            staker: ctx.staker.key,
        },
    )
}

} // verus!
