use crate::authority::{address_bytes, derive_address, program_address, seeds_view};
use crate::error::AiNftError;
use crate::pubkey::Pubkey;
use vstd::prelude::*;
use vstd::string::StringSliceAdditionalSpecFns;

verus! {

/// The position of one staker with one execution client.
#[derive(Clone, Debug, PartialEq, Eq)]
pub struct Staker {
    /// Who staked.
    pub authority: Pubkey,
    /// The client staked with.
    pub execution_client: Pubkey,
    /// Claim tokens held, as last recorded.
    pub amount: u64,
    /// The epoch of the last stake or redemption.
    pub last_stake_epoch: u64,
    /// Kept for a cooldown that no operation uses yet.
    pub unstaking_epoch: Option<u64>,
    pub total_rewards_claimed: u64,
    pub bump: u8,
}

/// The seed list from which the address of a staker's position with a
/// client is derived: the tag `staker`, the client, the staker, the bump.
pub open spec fn staker_seeds(
    execution_client: Pubkey,
    authority: Pubkey,
    bump: u8,
) -> Seq<Seq<u8>> {
    seq!["staker".spec_bytes(), execution_client.bytes@, authority.bytes@, seq![bump]]
}

/// The address derived under `program_id` for the position of `authority`
/// with `execution_client`, if the seeds derive one.
pub fn staker_address(
    execution_client: &Pubkey,
    authority: &Pubkey,
    bump: u8,
    program_id: &Pubkey,
) -> (address: Option<Pubkey>)
    ensures
        address_bytes(address) == program_address(
            staker_seeds(*execution_client, *authority, bump),
            program_id.bytes@,
        ),
{
    let bump_seed = [bump];
    let seeds = [
        "staker".as_bytes(),
        execution_client.bytes.as_slice(),
        authority.bytes.as_slice(),
        bump_seed.as_slice(),
    ];
    assert(bump_seed@ =~= seq![bump]);
    assert(seeds_view(seeds@) =~= staker_seeds(*execution_client, *authority, bump));
    derive_address(seeds.as_slice(), program_id)
}

impl Staker {
    /// A new position, opened in `epoch`, with no cooldown and no rewards
    /// claimed.
    pub fn new(
        authority: Pubkey,
        execution_client: Pubkey,
        amount: u64,
        bump: u8,
        epoch: u64,
    ) -> (staker: Self)
        ensures
            staker == (Staker {
                authority,
                execution_client,
                amount,
                last_stake_epoch: epoch,
                unstaking_epoch: None,
                total_rewards_claimed: 0,
                bump,
            }),
    {
        Staker {
            authority,
            execution_client,
            amount,
            last_stake_epoch: epoch,
            unstaking_epoch: None,
            total_rewards_claimed: 0,
            bump,
        }
    }

    /// Records `amount` more claim tokens, staked in `epoch`; fails with
    /// `Overflow`, changing nothing, when the balance would not fit.
    pub fn update_staked_amount(
        &mut self,
        amount: u64,
        epoch: u64,
    ) -> (result: Result<(), AiNftError>)
        ensures
            old(self).amount + amount <= u64::MAX ==> result is Ok && *final(self) == (Staker {
                amount: (old(self).amount + amount) as u64,
                last_stake_epoch: epoch,
                ..*old(self)
            }),
            old(self).amount + amount > u64::MAX ==> result == Err::<(), AiNftError>(
                AiNftError::Overflow,
            ) && *final(self) == *old(self),
    {
        match self.amount.checked_add(amount) {
            Some(total) => {
                self.amount = total;
                self.last_stake_epoch = epoch;
                Ok(())
            },
            None => Err(AiNftError::Overflow),
        }
    }

    /// Records `amount` claim tokens redeemed in `epoch`; fails with
    /// `Overflow`, changing nothing, when the position holds fewer.
    pub fn unstake_compute(&mut self, amount: u64, epoch: u64) -> (result: Result<(), AiNftError>)
        ensures
            amount <= old(self).amount ==> result is Ok && *final(self) == (Staker {
                amount: (old(self).amount - amount) as u64,
                last_stake_epoch: epoch,
                ..*old(self)
            }),
            amount > old(self).amount ==> result == Err::<(), AiNftError>(AiNftError::Overflow)
                && *final(self) == *old(self),
    {
        match self.amount.checked_sub(amount) {
            Some(rest) => {
                self.amount = rest;
                self.last_stake_epoch = epoch;
                Ok(())
            },
            None => Err(AiNftError::Overflow),
        }
    }

    /// Adds `amount` to the rewards claimed; fails with `Overflow`, changing
    /// nothing, when the total would not fit.
    pub fn claim_rewards(&mut self, amount: u64) -> (result: Result<(), AiNftError>)
        ensures
            old(self).total_rewards_claimed + amount <= u64::MAX ==> result is Ok && *final(self)
                == (Staker {
                total_rewards_claimed: (old(self).total_rewards_claimed + amount) as u64,
                ..*old(self)
            }),
            old(self).total_rewards_claimed + amount > u64::MAX ==> result == Err::<
                (),
                AiNftError,
            >(AiNftError::Overflow) && *final(self) == *old(self),
    {
        match self.total_rewards_claimed.checked_add(amount) {
            Some(total) => {
                self.total_rewards_claimed = total;
                Ok(())
            },
            None => Err(AiNftError::Overflow),
        }
    }
}

} // verus!
