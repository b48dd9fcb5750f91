use crate::authority::{address_bytes, derived_address, is_address, Authority};
use crate::error::AiNftError;
use crate::events::ComputeStaked;
use crate::pubkey::Pubkey;
use crate::staking_pool::{minted_claims, scaled_rate, PoolOp};
use crate::state::{AiNft, ExecutionClient, Staker};
use crate::token::{Account, Mint, MintTo, TokenAccount, Transfer};
use vstd::prelude::*;

verus! {

/// The records that staking touches.
#[derive(Clone, Debug, PartialEq, Eq)]
pub struct StakeCompute {
    /// The registry.
    pub ai_nft: Account<AiNft>,
    /// The client staked with.
    pub execution_client: Account<ExecutionClient>,
    /// The client's vault, which receives the credits.
    pub stake_pool_token_account: TokenAccount,
    /// The mint of the client's claim token.
    pub liquid_staking_token_mint: Mint,
    /// The staker's compute account, which pays.
    pub authority_compute_account: TokenAccount,
    /// The staker's claim-token account, which receives the claims.
    pub authority_liquid_staking_token_account: TokenAccount,
    /// The staker's position with this client; empty before the first stake.
    pub staker_account: Account<Option<Staker>>,
    /// The bump of the position's address, recorded when it is created.
    pub staker_bump: u8,
    /// The staker, who signed.
    pub authority: Pubkey,
}

/// What the ledger must carry out for a stake, and what is reported of it.
#[derive(Debug)]
pub struct StakeReceipt {
    /// Moves the staked credits from the staker into the vault.
    pub transfer: Transfer,
    /// Mints the claim tokens to the staker.
    pub mint_to: MintTo,
    pub event: ComputeStaked,
}

impl StakeCompute {
    /// The first condition on the records and the amount, in this order,
    /// that does not hold, if there is one.
    pub open spec fn link_error(&self, amount: u64) -> Option<AiNftError> {
        let client = self.execution_client.data;
        if self.ai_nft.key != client.ai_nft {
            Some(AiNftError::InvalidAiNft)
        } else if !client.active {
            Some(AiNftError::ExecutionClientNotActive)
        } else if client.liquid_staking_token_mint != self.liquid_staking_token_mint.key {
            Some(AiNftError::InvalidStakedMint)
        } else if client.stake_pool_token_account != self.stake_pool_token_account.key {
            Some(AiNftError::InvalidComputeVault)
        } else if self.stake_pool_token_account.mint != client.compute_mint {
            Some(AiNftError::InvalidComputeMint)
        } else if self.liquid_staking_token_mint.mint_authority != Some(self.execution_client.key) {
            Some(AiNftError::InvalidLiquidStakingMint)
        } else if self.authority_compute_account.mint != client.compute_mint {
            Some(AiNftError::InvalidComputeMint)
        } else if self.authority_compute_account.owner != self.authority {
            Some(AiNftError::InvalidTokenOwner)
        } else if self.authority_liquid_staking_token_account.mint
            != self.liquid_staking_token_mint.key {
            Some(AiNftError::InvalidStakedMint)
        } else if self.authority_liquid_staking_token_account.owner != self.authority {
            Some(AiNftError::InvalidTokenOwner)
        } else if self.staker_account.data is Some && (self.staker_account.data->0.authority
            != self.authority || self.staker_account.data->0.execution_client
            != self.execution_client.key) {
            Some(AiNftError::InvalidStaker)
        } else if amount == 0 {
            Some(AiNftError::InvalidStakeAmount)
        } else {
            None
        }
    }

    /// Why the stake is refused before any amount is computed, if it is: a
    /// condition that does not hold, a client that is not at the address
    /// `client_address` that its seeds derive, or a new position whose slot
    /// is not at the address `position_address` derived for it.
    pub open spec fn refusal(
        &self,
        client_address: Option<Seq<u8>>,
        position_address: Option<Seq<u8>>,
        amount: u64,
    ) -> Option<AiNftError> {
        if self.link_error(amount) is Some {
            self.link_error(amount)
        } else if client_address != Some(self.execution_client.key.bytes@) {
            Some(AiNftError::InvalidExecutionClient)
        } else if self.staker_account.data is None && position_address != Some(
            self.staker_account.key.bytes@,
        ) {
            Some(AiNftError::InvalidStaker)
        } else {
            None
        }
    }

    /// The claim tokens that `amount` credits mint at the pool's current
    /// rate.
    pub open spec fn minted(&self, amount: u64) -> nat {
        minted_claims(
            self.execution_client.data.total_compute as nat,
            self.execution_client.data.total_staked as nat,
            amount as nat,
        )
    }

    /// The claim tokens the position holds before the stake.
    pub open spec fn held(&self) -> nat {
        match self.staker_account.data {
            Some(staker) => staker.amount as nat,
            None => 0,
        }
    }

    /// Whether the rate is undefined or a total would run over.
    pub open spec fn overflows(&self, amount: u64) -> bool {
        let client = self.execution_client.data;
        ||| client.total_staked > 0 && client.total_compute == 0
        ||| self.minted(amount) > u64::MAX
        ||| client.total_compute + amount > u64::MAX
        ||| client.total_staked + self.minted(amount) > u64::MAX
        ||| self.held() + self.minted(amount) > u64::MAX
    }

    /// Why the stake fails, if it does.
    pub open spec fn error(
        &self,
        client_address: Option<Seq<u8>>,
        position_address: Option<Seq<u8>>,
        amount: u64,
    ) -> Option<AiNftError> {
        if self.refusal(client_address, position_address, amount) is Some {
            self.refusal(client_address, position_address, amount)
        } else if self.overflows(amount) {
            Some(AiNftError::Overflow)
        } else {
            None
        }
    }

    /// The position after `minted` more claims were staked in `epoch`.
    pub open spec fn position_after(&self, minted: u64, epoch: u64) -> Staker {
        match self.staker_account.data {
            Some(staker) => Staker {
                amount: (staker.amount + minted) as u64,
                last_stake_epoch: epoch,
                ..staker
            },
            None => Staker {
                authority: self.authority,
                execution_client: self.execution_client.key,
                amount: minted,
                last_stake_epoch: epoch,
                unstaking_epoch: None,
                total_rewards_claimed: 0,
                bump: self.staker_bump,
            },
        }
    }

    /// What a successful stake of `amount` in `epoch` leaves behind: the
    /// records `after` and the `receipt`.
    pub open spec fn staked(
        &self,
        after: StakeCompute,
        receipt: StakeReceipt,
        amount: u64,
        epoch: u64,
    ) -> bool {
        let minted = self.minted(amount) as u64;
        let client = self.execution_client.data;
        &&& receipt.transfer.from == self.authority_compute_account.key
        &&& receipt.transfer.to == self.stake_pool_token_account.key
        &&& receipt.transfer.amount == amount
        &&& receipt.transfer.authority.spec_account() == self.authority
        &&& !receipt.transfer.authority.spec_is_derived()
        &&& receipt.mint_to.mint == self.liquid_staking_token_mint.key
        &&& receipt.mint_to.to == self.authority_liquid_staking_token_account.key
        &&& receipt.mint_to.amount == minted
        &&& receipt.mint_to.authority.spec_account() == self.execution_client.key
        &&& receipt.mint_to.authority.spec_is_derived()
        &&& receipt.event.execution_client == self.execution_client.key
        &&& receipt.event.staker == self.authority
        &&& receipt.event.compute_amount == amount
        &&& receipt.event.staked_amount == minted
        &&& receipt.event.exchange_rate == if client.total_staked + minted > 0 && scaled_rate(
            (client.total_compute + amount) as nat,
            (client.total_staked + minted) as nat,
        ) <= u64::MAX {
            Some(
                scaled_rate(
                    (client.total_compute + amount) as nat,
                    (client.total_staked + minted) as nat,
                ) as u64,
            )
        } else {
            None
        }
        &&& client.wf() ==> after.execution_client.data.wf()
        &&& client.pool().accepts(PoolOp::Stake(amount as nat))
        &&& after.execution_client.data.pool() == client.pool().apply(PoolOp::Stake(amount as nat))
        &&& after == (StakeCompute {
            execution_client: Account {
                key: self.execution_client.key,
                data: ExecutionClient {
                    total_compute: (client.total_compute + amount) as u64,
                    total_staked: (client.total_staked + minted) as u64,
                    ..client
                },
            },
            staker_account: Account {
                key: self.staker_account.key,
                data: Some(self.position_after(minted, epoch)),
            },
            ..*self
        })
    }

    /// Checks the conditions of `link_error`, in its order.
    fn check_links(&self, amount: u64) -> (result: Result<(), AiNftError>)
        ensures
            match result {
                Ok(()) => self.link_error(amount) is None,
                Err(e) => self.link_error(amount) == Some(e),
            },
    {
        if self.ai_nft.key != self.execution_client.data.ai_nft {
            return Err(AiNftError::InvalidAiNft);
        }
        if !self.execution_client.data.active {
            return Err(AiNftError::ExecutionClientNotActive);
        }
        if self.execution_client.data.liquid_staking_token_mint
            != self.liquid_staking_token_mint.key {
            return Err(AiNftError::InvalidStakedMint);
        }
        if self.execution_client.data.stake_pool_token_account
            != self.stake_pool_token_account.key {
            return Err(AiNftError::InvalidComputeVault);
        }
        if self.stake_pool_token_account.mint != self.execution_client.data.compute_mint {
            return Err(AiNftError::InvalidComputeMint);
        }
        let minted_by_client = match self.liquid_staking_token_mint.mint_authority {
            Some(key) => key == self.execution_client.key,
            None => false,
        };
        if !minted_by_client {
            return Err(AiNftError::InvalidLiquidStakingMint);
        }
        if self.authority_compute_account.mint != self.execution_client.data.compute_mint {
            return Err(AiNftError::InvalidComputeMint);
        }
        if self.authority_compute_account.owner != self.authority {
            return Err(AiNftError::InvalidTokenOwner);
        }
        if self.authority_liquid_staking_token_account.mint != self.liquid_staking_token_mint.key {
            return Err(AiNftError::InvalidStakedMint);
        }
        if self.authority_liquid_staking_token_account.owner != self.authority {
            return Err(AiNftError::InvalidTokenOwner);
        }
        match &self.staker_account.data {
            Some(staker) => {
                if staker.authority != self.authority || staker.execution_client
                    != self.execution_client.key {
                    return Err(AiNftError::InvalidStaker);
                }
            },
            None => {},
        }
        if amount == 0 {
            return Err(AiNftError::InvalidStakeAmount);
        }
        Ok(())
    }
}

/// Stakes `amount` compute credits with an execution client in `epoch`.
///
/// `client_authority` is the capability derived from the client's seeds, and
/// `position_address` the address derived for the staker's position; the
/// first must control the client's own address, and a position that is
/// created must lie at the second.
///
/// The credits go from the staker into the client's vault; claim tokens are
/// minted to the staker under the client's authority, one for one into a
/// pool without claims and at the pool's rate, rounded down, otherwise. The
/// pool's totals grow by the two amounts, and the staker's position is
/// created or grows by the claims minted.
///
/// Any failure leaves every record as it was and orders nothing.
pub fn stake_compute_handler(
    ctx: &mut StakeCompute,
    client_authority: Option<Authority>,
    position_address: Option<Pubkey>,
    amount: u64,
    epoch: u64,
) -> (result: Result<StakeReceipt, AiNftError>)
    ensures
        match result {
            Err(e) => old(ctx).error(
                derived_address(client_authority),
                address_bytes(position_address),
                amount,
            ) == Some(e) && *final(ctx) == *old(ctx),
            Ok(receipt) => {
                &&& old(ctx).error(
                    derived_address(client_authority),
                    address_bytes(position_address),
                    amount,
                ) is None
                &&& old(ctx).staked(*final(ctx), receipt, amount, epoch)
                &&& Some(receipt.mint_to.authority) == client_authority
            },
        },
{
    match ctx.check_links(amount) {
        Err(e) => {
            return Err(e);
        },
        Ok(()) => {},
    }
    let client_key = ctx.execution_client.key;
    let mint_authority = match client_authority {
        Some(a) => a,
        None => {
            return Err(AiNftError::InvalidExecutionClient);
        },
    };
    proof {
        Pubkey::lemma_same_bytes(mint_authority.spec_account(), client_key);
    }
    if !mint_authority.controls_by_derivation(&client_key) {
        return Err(AiNftError::InvalidExecutionClient);
    }
    if ctx.staker_account.data.is_none() && !is_address(
        &position_address,
        &ctx.staker_account.key,
    ) {
        return Err(AiNftError::InvalidStaker);
    }
    let minted = match ctx.execution_client.data.calculate_stake_amount(amount) {
        Ok(minted) => minted,
        Err(e) => {
            return Err(e);
        },
    };
    if ctx.execution_client.data.total_compute > u64::MAX - amount {
        return Err(AiNftError::Overflow);
    }
    if ctx.execution_client.data.total_staked > u64::MAX - minted {
        return Err(AiNftError::Overflow);
    }
    let position = match &ctx.staker_account.data {
        Some(staker) => {
            if staker.amount > u64::MAX - minted {
                return Err(AiNftError::Overflow);
            }
            Staker {
                authority: staker.authority,
                execution_client: staker.execution_client,
                amount: staker.amount + minted,
                last_stake_epoch: epoch,
                unstaking_epoch: staker.unstaking_epoch,
                total_rewards_claimed: staker.total_rewards_claimed,
                bump: staker.bump,
            }
        },
        None => Staker::new(ctx.authority, client_key, minted, ctx.staker_bump, epoch),
    };
    let transfer = Transfer {
        from: ctx.authority_compute_account.key,
        to: ctx.stake_pool_token_account.key,
        authority: Authority::signer(ctx.authority),
        amount,
    };
    let mint_to = MintTo {
        mint: ctx.liquid_staking_token_mint.key,
        to: ctx.authority_liquid_staking_token_account.key,
        authority: mint_authority,
        amount: minted,
    };
    match ctx.execution_client.data.update_compute_token_amount(amount) {
        Ok(()) => {},
        Err(e) => {
            return Err(e);
        },
    }
    match ctx.execution_client.data.add_stake(minted) {
        Ok(()) => {},
        Err(e) => {
            return Err(e);
        },
    }
    ctx.staker_account.data = Some(position);
    let event = ComputeStaked {
        execution_client: client_key,
        staker: ctx.authority,
        compute_amount: amount,
        staked_amount: minted,
        exchange_rate: ctx.execution_client.data.get_staking_rate(),
    };
    Ok(StakeReceipt { transfer, mint_to, event })
}

} // verus!
