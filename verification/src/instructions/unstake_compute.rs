use crate::authority::{derived_address, Authority};
use crate::error::AiNftError;
use crate::events::ComputeUnstaked;
use crate::pubkey::Pubkey;
use crate::staking_pool::{lemma_unstake_keeps_rate, redeemed_compute, scaled_rate, PoolOp};
use crate::state::{AiNft, ExecutionClient, Staker};
use crate::token::{Account, Burn, Mint, TokenAccount, Transfer};
use vstd::prelude::*;

verus! {

/// The records that redeeming claims touches.
#[derive(Clone, Debug, PartialEq, Eq)]
pub struct UnstakeCompute {
    /// The registry, under whose derived authority the vault pays out.
    pub ai_nft: Account<AiNft>,
    /// The client staked with.
    pub execution_client: Account<ExecutionClient>,
    /// The mint of the client's claim token.
    pub liquid_staking_token_mint: Mint,
    /// The staker's position with this client.
    pub staker_account: Account<Option<Staker>>,
    /// The client's vault, which pays out.
    pub stake_pool_token_account: TokenAccount,
    /// The staker's compute account, which receives the credits.
    pub authority_compute_account: TokenAccount,
    /// The staker's claim-token account, out of which the claims are burnt.
    pub authority_liquid_staking_token_account: TokenAccount,
    /// The staker, who signed.
    pub authority: Pubkey,
}

/// What the ledger must carry out for a redemption, and what is reported
/// of it.
#[derive(Debug)]
pub struct UnstakeReceipt {
    /// Burns the redeemed claim tokens.
    pub burn: Burn,
    /// Pays the credits out of the vault to the staker.
    pub transfer: Transfer,
    pub event: ComputeUnstaked,
}

impl UnstakeCompute {
    /// The first link between the records, in this order, that does not
    /// hold, if there is one.
    pub open spec fn link_error(&self) -> Option<AiNftError> {
        let client = self.execution_client.data;
        if self.ai_nft.key != client.ai_nft {
            Some(AiNftError::InvalidAiNft)
        } else if !client.active {
            Some(AiNftError::ExecutionClientNotActive)
        } else if client.liquid_staking_token_mint != self.liquid_staking_token_mint.key {
            Some(AiNftError::InvalidStakedMint)
        } else if client.compute_mint != self.stake_pool_token_account.mint {
            Some(AiNftError::InvalidComputeVault)
        } else if client.stake_pool_token_account != self.stake_pool_token_account.key {
            Some(AiNftError::InvalidComputeVault)
        } else if self.staker_account.data is None {
            Some(AiNftError::StakeAccountNotFound)
        } else if self.staker_account.data->0.authority != self.authority
            || self.staker_account.data->0.execution_client != self.execution_client.key {
            Some(AiNftError::InvalidStaker)
        } else if self.authority_compute_account.mint != client.compute_mint {
            Some(AiNftError::InvalidComputeMint)
        } else if self.authority_compute_account.owner != self.authority {
            Some(AiNftError::InvalidAuthority)
        } else if self.authority_liquid_staking_token_account.mint
            != self.liquid_staking_token_mint.key {
            Some(AiNftError::InvalidStakedMint)
        } else if self.authority_liquid_staking_token_account.owner != self.authority {
            Some(AiNftError::InvalidAuthority)
        } else {
            None
        }
    }

    /// Why the redemption is refused before any amount is computed, if it
    /// is: a link that does not hold, or a registry that is not at the
    /// address `registry_address` that its seeds derive.
    pub open spec fn refusal(&self, registry_address: Option<Seq<u8>>) -> Option<AiNftError> {
        if self.link_error() is Some {
            self.link_error()
        } else if registry_address != Some(self.ai_nft.key.bytes@) {
            Some(AiNftError::InvalidAiNft)
        } else {
            None
        }
    }

    /// The credits that `staked_amount` claim tokens redeem at the pool's
    /// current rate.
    pub open spec fn redeemed(&self, staked_amount: u64) -> nat {
        redeemed_compute(
            self.execution_client.data.total_compute as nat,
            self.execution_client.data.total_staked as nat,
            staked_amount as nat,
        )
    }

    /// Whether the rate is undefined, or more claims are redeemed than are
    /// outstanding or than the position holds.
    pub open spec fn underflows(&self, staked_amount: u64) -> bool {
        ||| self.execution_client.data.total_staked == 0
        ||| staked_amount > self.execution_client.data.total_staked
        ||| self.staker_account.data is Some && staked_amount > self.staker_account.data->0.amount
    }

    /// Why the redemption fails, if it does.
    pub open spec fn error(
        &self,
        registry_address: Option<Seq<u8>>,
        staked_amount: u64,
    ) -> Option<AiNftError> {
        if self.refusal(registry_address) is Some {
            self.refusal(registry_address)
        } else if self.underflows(staked_amount) {
            Some(AiNftError::Overflow)
        } else {
            None
        }
    }

    /// What a successful redemption of `staked_amount` in `epoch` leaves
    /// behind: the records `after` and the `receipt`.
    pub open spec fn unstaked(
        &self,
        after: UnstakeCompute,
        receipt: UnstakeReceipt,
        staked_amount: u64,
        epoch: u64,
    ) -> bool {
        let paid = self.redeemed(staked_amount) as u64;
        let client = self.execution_client.data;
        let staker = self.staker_account.data->0;
        &&& self.redeemed(staked_amount) <= client.total_compute
        &&& receipt.burn.mint == self.liquid_staking_token_mint.key
        &&& receipt.burn.from == self.authority_liquid_staking_token_account.key
        &&& receipt.burn.amount == staked_amount
        &&& receipt.burn.authority.spec_account() == self.authority
        &&& !receipt.burn.authority.spec_is_derived()
        &&& receipt.transfer.from == self.stake_pool_token_account.key
        &&& receipt.transfer.to == self.authority_compute_account.key
        &&& receipt.transfer.amount == paid
        &&& receipt.transfer.authority.spec_account() == self.ai_nft.key
        &&& receipt.transfer.authority.spec_is_derived()
        &&& receipt.event.execution_client == self.execution_client.key
        &&& receipt.event.staker == self.authority
        &&& receipt.event.compute_amount == paid
        &&& receipt.event.staked_amount == staked_amount
        &&& receipt.event.exchange_rate == if client.total_staked - staked_amount > 0
            && scaled_rate(
            (client.total_compute - paid) as nat,
            (client.total_staked - staked_amount) as nat,
        ) <= u64::MAX {
            Some(
                scaled_rate(
                    (client.total_compute - paid) as nat,
                    (client.total_staked - staked_amount) as nat,
                ) as u64,
            )
        } else {
            None
        }
        &&& client.wf() ==> after.execution_client.data.wf()
        &&& client.pool().accepts(PoolOp::Unstake(staked_amount as nat))
        &&& after.execution_client.data.pool() == client.pool().apply(
            PoolOp::Unstake(staked_amount as nat),
        )
        &&& after == (UnstakeCompute {
            execution_client: Account {
                key: self.execution_client.key,
                data: ExecutionClient {
                    total_compute: (client.total_compute - paid) as u64,
                    total_staked: (client.total_staked - staked_amount) as u64,
                    ..client
                },
            },
            staker_account: Account {
                key: self.staker_account.key,
                data: Some(
                    Staker {
                        amount: (staker.amount - staked_amount) as u64,
                        last_stake_epoch: epoch,
                        ..staker
                    },
                ),
            },
            ..*self
        })
    }

    /// Checks the links between the records, in the order of `link_error`.
    fn check_links(&self) -> (result: Result<(), AiNftError>)
        ensures
            match result {
                Ok(()) => self.link_error() is None,
                Err(e) => self.link_error() == Some(e),
            },
    {
        if self.ai_nft.key != self.execution_client.data.ai_nft {
            return Err(AiNftError::InvalidAiNft);
        }
        if !self.execution_client.data.active {
            return Err(AiNftError::ExecutionClientNotActive);
        }
        if self.execution_client.data.liquid_staking_token_mint
            != self.liquid_staking_token_mint.key {
            return Err(AiNftError::InvalidStakedMint);
        }
        if self.execution_client.data.compute_mint != self.stake_pool_token_account.mint {
            return Err(AiNftError::InvalidComputeVault);
        }
        if self.execution_client.data.stake_pool_token_account
            != self.stake_pool_token_account.key {
            return Err(AiNftError::InvalidComputeVault);
        }
        match &self.staker_account.data {
            None => {
                return Err(AiNftError::StakeAccountNotFound);
            },
            Some(staker) => {
                if staker.authority != self.authority || staker.execution_client
                    != self.execution_client.key {
                    return Err(AiNftError::InvalidStaker);
                }
            },
        }
        if self.authority_compute_account.mint != self.execution_client.data.compute_mint {
            return Err(AiNftError::InvalidComputeMint);
        }
        if self.authority_compute_account.owner != self.authority {
            return Err(AiNftError::InvalidAuthority);
        }
        if self.authority_liquid_staking_token_account.mint != self.liquid_staking_token_mint.key {
            return Err(AiNftError::InvalidStakedMint);
        }
        if self.authority_liquid_staking_token_account.owner != self.authority {
            return Err(AiNftError::InvalidAuthority);
        }
        Ok(())
    }
}

/// Redeems `staked_amount` claim tokens with an execution client in `epoch`.
///
/// `vault_authority` is the capability derived from the registry's seeds;
/// it must control the registry's own address.
///
/// The claims are burnt out of the staker's account, and
/// `floor(staked_amount * total_compute / total_staked)` credits are paid
/// out of the vault to the staker under the registry's authority, never the
/// client's. The pool's totals and the staker's position shrink by the two
/// amounts.
///
/// A pool without claims cannot be redeemed from. Any failure leaves every
/// record as it was and orders nothing.
pub fn unstake_compute_handler(
    ctx: &mut UnstakeCompute,
    vault_authority: Option<Authority>,
    staked_amount: u64,
    epoch: u64,
) -> (result: Result<UnstakeReceipt, AiNftError>)
    ensures
        match result {
            Err(e) => old(ctx).error(derived_address(vault_authority), staked_amount) == Some(e)
                && *final(ctx) == *old(ctx),
            Ok(receipt) => {
                &&& old(ctx).error(derived_address(vault_authority), staked_amount) is None
                &&& old(ctx).unstaked(*final(ctx), receipt, staked_amount, epoch)
                &&& Some(receipt.transfer.authority) == vault_authority
            },
        },
{
    match ctx.check_links() {
        Err(e) => {
            return Err(e);
        },
        Ok(()) => {},
    }
    let registry_key = ctx.ai_nft.key;
    let vault_authority = match vault_authority {
        Some(a) => a,
        None => {
            return Err(AiNftError::InvalidAiNft);
        },
    };
    proof {
        Pubkey::lemma_same_bytes(vault_authority.spec_account(), registry_key);
    }
    if !vault_authority.controls_by_derivation(&registry_key) {
        return Err(AiNftError::InvalidAiNft);
    }
    let total_compute = ctx.execution_client.data.total_compute;
    let total_staked = ctx.execution_client.data.total_staked;
    if total_staked == 0 || staked_amount > total_staked {
        return Err(AiNftError::Overflow);
    }
    proof {
        lemma_unstake_keeps_rate(ctx.execution_client.data.pool(), staked_amount as nat);
    }
    let paid = match ctx.execution_client.data.calculate_unstake_amount(staked_amount) {
        Ok(paid) => paid,
        Err(e) => {
            return Err(e);
        },
    };
    let position = match &ctx.staker_account.data {
        Some(staker) => {
            if staked_amount > staker.amount {
                return Err(AiNftError::Overflow);
            }
            Staker {
                authority: staker.authority,
                execution_client: staker.execution_client,
                amount: staker.amount - staked_amount,
                last_stake_epoch: epoch,
                unstaking_epoch: staker.unstaking_epoch,
                total_rewards_claimed: staker.total_rewards_claimed,
                bump: staker.bump,
            }
        },
        None => {
            return Err(AiNftError::StakeAccountNotFound);
        },
    };
    let burn = Burn {
        mint: ctx.liquid_staking_token_mint.key,
        from: ctx.authority_liquid_staking_token_account.key,
        authority: Authority::signer(ctx.authority),
        amount: staked_amount,
    };
    let transfer = Transfer {
        from: ctx.stake_pool_token_account.key,
        to: ctx.authority_compute_account.key,
        authority: vault_authority,
        amount: paid,
    };
    ctx.execution_client.data.total_compute = total_compute - paid;
    ctx.execution_client.data.total_staked = total_staked - staked_amount;
    ctx.staker_account.data = Some(position);
    let event = ComputeUnstaked {
        execution_client: ctx.execution_client.key,
        staker: ctx.authority,
        compute_amount: paid,
        staked_amount,
        exchange_rate: ctx.execution_client.data.get_staking_rate(),
    };
    Ok(UnstakeReceipt { burn, transfer, event })
}

} // verus!
