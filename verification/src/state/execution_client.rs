use crate::authority::seeds_view;
use crate::error::AiNftError;
use crate::pubkey::Pubkey;
use crate::staking_pool::{minted_claims, redeemed_compute, scaled_rate, staker_portion, Pool};
use vstd::prelude::*;
use vstd::string::StringSliceAdditionalSpecFns;

verus! {

/// Number of decimals in which gas amounts are expressed.
pub const GAS_DECIMALS: u8 = 9;

/// Smallest units per whole compute credit.
pub const GAS_DECIMALS_MULTIPLIER: u64 = 1_000_000_000;

/// The highest gas price a client may ask: six hundred million whole credits.
pub const MAX_GAS: u64 = 600_000_000_000_000_000;

/// An operator registered to answer messages, with the staking pool that
/// backs it.
#[derive(Clone, Debug, PartialEq, Eq)]
pub struct ExecutionClient {
    /// The registry this client belongs to.
    pub ai_nft: Pubkey,
    /// The owner of the execution client.
    pub authority: Pubkey,
    /// The account that receives the client's part of each fee.
    pub compute_token_address: Pubkey,
    /// Price per answered message, in smallest units.
    pub gas: u64,
    /// The mint of the compute credit.
    pub compute_mint: Pubkey,
    /// The mint of the claim token handed to stakers.
    pub liquid_staking_token_mint: Pubkey,
    /// The vault that holds what stakers contributed.
    pub stake_pool_token_account: Pubkey,
    /// Compute credits in the vault.
    pub total_compute: u64,
    /// Claim tokens outstanding.
    pub total_staked: u64,
    /// Messages answered so far.
    pub total_processed: u64,
    /// Percent of each fee that goes to stakers.
    pub staker_fee_share: u8,
    /// Whether the client accepts work.
    pub active: bool,
    pub bump: [u8; 1],
    /// The message types the client answers.
    pub supported_message_types: Vec<String>,
}

impl Default for ExecutionClient {
    fn default() -> (client: Self)
        ensures
            client.ai_nft.is_zero(),
            client.authority.is_zero(),
            client.compute_token_address.is_zero(),
            client.compute_mint.is_zero(),
            client.liquid_staking_token_mint.is_zero(),
            client.stake_pool_token_account.is_zero(),
            client.gas == 0,
            client.total_compute == 0,
            client.total_staked == 0,
            client.total_processed == 0,
            client.staker_fee_share == 0,
            !client.active,
            client.bump@ == seq![22u8],
            client.supported_message_types@.len() == 0,
    {
        let client = ExecutionClient {
            ai_nft: Pubkey::default(),
            authority: Pubkey::default(),
            compute_token_address: Pubkey::default(),
            gas: 0,
            compute_mint: Pubkey::default(),
            liquid_staking_token_mint: Pubkey::default(),
            stake_pool_token_account: Pubkey::default(),
            total_compute: 0,
            total_staked: 0,
            total_processed: 0,
            staker_fee_share: 0,
            active: false,
            bump: [22],
            supported_message_types: Vec::new(),
        };
        assert(client.bump@ =~= seq![22u8]);
        client
    }
}

impl ExecutionClient {
    /// The invariants of a registered client: the fee share is a percentage
    /// and the gas price is within the cap.
    pub open spec fn wf(&self) -> bool {
        &&& self.staker_fee_share <= 100
        &&& self.gas <= MAX_GAS
    }

    /// The totals of the staking pool.
    pub open spec fn pool(&self) -> Pool {
        Pool { total_compute: self.total_compute as nat, total_staked: self.total_staked as nat }
    }

    /// Fills in a freshly registered client: empty pool, nothing processed,
    /// active.
    ///
    /// A fee share above one hundred percent is refused first, then a gas
    /// price above the cap; a refusal leaves the record untouched.
    pub fn set(
        &mut self,
        ai_nft: Pubkey,
        authority: Pubkey,
        gas: u64,
        compute_mint: Pubkey,
        bump: u8,
        supported_message_types: Vec<String>,
        liquid_staking_token_mint: Pubkey,
        stake_pool_token_account: Pubkey,
        compute_token_address: Pubkey,
        staker_fee_share: u8,
    ) -> (result: Result<(), AiNftError>)
        ensures
            staker_fee_share > 100 ==> result == Err::<(), AiNftError>(AiNftError::InvalidFeeShare),
            staker_fee_share <= 100 && gas > MAX_GAS ==> result == Err::<(), AiNftError>(
                AiNftError::InvalidGasAmount,
            ),
            staker_fee_share <= 100 && gas <= MAX_GAS ==> result is Ok,
            result is Err ==> *final(self) == *old(self),
            result is Ok ==> {
                &&& final(self).ai_nft == ai_nft
                &&& final(self).authority == authority
                &&& final(self).gas == gas
                &&& final(self).compute_token_address == compute_token_address
                &&& final(self).compute_mint == compute_mint
                &&& final(self).liquid_staking_token_mint == liquid_staking_token_mint
                &&& final(self).stake_pool_token_account == stake_pool_token_account
                &&& final(self).total_compute == 0
                &&& final(self).total_staked == 0
                &&& final(self).total_processed == 0
                &&& final(self).staker_fee_share == staker_fee_share
                &&& final(self).active
                &&& final(self).bump@ == seq![bump]
                &&& final(self).supported_message_types == supported_message_types
                &&& final(self).wf()
            },
    {
        if staker_fee_share > 100 {
            return Err(AiNftError::InvalidFeeShare);
        }
        if gas > MAX_GAS {
            return Err(AiNftError::InvalidGasAmount);
        }
        self.ai_nft = ai_nft;
        self.authority = authority;
        self.gas = gas;
        self.compute_token_address = compute_token_address;
        self.compute_mint = compute_mint;
        self.liquid_staking_token_mint = liquid_staking_token_mint;
        self.stake_pool_token_account = stake_pool_token_account;
        self.total_compute = 0;
        self.total_staked = 0;
        self.total_processed = 0;
        self.staker_fee_share = staker_fee_share;
        self.active = true;
        self.bump = [bump];
        self.supported_message_types = supported_message_types;
        assert(self.bump@ =~= seq![bump]);
        Ok(())
    }

    /// Adds `amount` credits to the pool; fails with `Overflow`, changing
    /// nothing, when the total would not fit.
    pub fn update_compute_token_amount(&mut self, amount: u64) -> (result: Result<(), AiNftError>)
        ensures
            old(self).wf() ==> final(self).wf(),
            old(self).total_compute + amount <= u64::MAX ==> result is Ok && *final(self) == (
            ExecutionClient { total_compute: (old(self).total_compute + amount) as u64, ..*old(self) }),
            old(self).total_compute + amount > u64::MAX ==> result == Err::<(), AiNftError>(
                AiNftError::Overflow,
            ) && *final(self) == *old(self),
    {
        match self.total_compute.checked_add(amount) {
            Some(total) => {
                self.total_compute = total;
                Ok(())
            },
            None => Err(AiNftError::Overflow),
        }
    }

    /// Adds `amount` to the count of answered messages; fails with
    /// `Overflow`, changing nothing, when the count would not fit.
    pub fn update_total_processed(&mut self, amount: u64) -> (result: Result<(), AiNftError>)
        ensures
            old(self).wf() ==> final(self).wf(),
            old(self).total_processed + amount <= u64::MAX ==> result is Ok && *final(self) == (
            ExecutionClient {
                total_processed: (old(self).total_processed + amount) as u64,
                ..*old(self)
            }),
            old(self).total_processed + amount > u64::MAX ==> result == Err::<(), AiNftError>(
                AiNftError::Overflow,
            ) && *final(self) == *old(self),
    {
        match self.total_processed.checked_add(amount) {
            Some(total) => {
                self.total_processed = total;
                Ok(())
            },
            None => Err(AiNftError::Overflow),
        }
    }

    /// Adds `amount` claim tokens to those outstanding; fails with
    /// `Overflow`, changing nothing, when the total would not fit.
    pub fn add_stake(&mut self, amount: u64) -> (result: Result<(), AiNftError>)
        ensures
            old(self).wf() ==> final(self).wf(),
            old(self).total_staked + amount <= u64::MAX ==> result is Ok && *final(self) == (
            ExecutionClient { total_staked: (old(self).total_staked + amount) as u64, ..*old(self) }),
            old(self).total_staked + amount > u64::MAX ==> result == Err::<(), AiNftError>(
                AiNftError::Overflow,
            ) && *final(self) == *old(self),
    {
        match self.total_staked.checked_add(amount) {
            Some(total) => {
                self.total_staked = total;
                Ok(())
            },
            None => Err(AiNftError::Overflow),
        }
    }

    /// Replaces the gas price; a price above the cap is refused with
    /// `InvalidGasAmount` and changes nothing.
    pub fn update_gas(&mut self, new_gas: u64) -> (result: Result<(), AiNftError>)
        ensures
            old(self).wf() ==> final(self).wf(),
            new_gas <= MAX_GAS ==> result is Ok && *final(self) == (ExecutionClient {
                gas: new_gas,
                ..*old(self)
            }),
            new_gas > MAX_GAS ==> result == Err::<(), AiNftError>(AiNftError::InvalidGasAmount)
                && *final(self) == *old(self),
    {
        if new_gas > MAX_GAS {
            return Err(AiNftError::InvalidGasAmount);
        }
        self.gas = new_gas;
        Ok(())
    }

    /// The gas price in smallest units.
    pub fn get_gas(&self) -> (gas: u64)
        ensures
            gas == self.gas,
    {
        self.gas
    }

    /// Credits the stakers' part of a fee of `amount` to the pool:
    /// `total_compute` grows by `floor(amount * staker_fee_share / 100)`.
    ///
    /// Fails with `Overflow`, changing nothing, when the total would not fit.
    pub fn add_fees(&mut self, amount: u64) -> (result: Result<(), AiNftError>)
        ensures
            old(self).wf() ==> final(self).wf(),
            ({
                let portion = staker_portion(amount as nat, old(self).staker_fee_share as nat);
                &&& old(self).total_compute + portion <= u64::MAX ==> result is Ok && *final(self)
                    == (ExecutionClient {
                    total_compute: (old(self).total_compute + portion) as u64,
                    ..*old(self)
                })
                &&& old(self).total_compute + portion > u64::MAX ==> result == Err::<
                    (),
                    AiNftError,
                >(AiNftError::Overflow) && *final(self) == *old(self)
            }),
    {
        let product: u128 = wide_product(amount, self.staker_fee_share as u64);
        let portion: u128 = product / 100;
        let total: u128 = self.total_compute as u128 + portion;
        if total > u64::MAX as u128 {
            return Err(AiNftError::Overflow);
        }
        self.total_compute = total as u64;
        Ok(())
    }

    /// The exchange rate in billionths of a credit per claim token:
    /// `floor(total_compute * 10^9 / total_staked)`.
    ///
    /// There is no rate while no claim is outstanding, and none is reported
    /// when it does not fit in 64 bits.
    pub fn get_staking_rate(&self) -> (rate: Option<u64>)
        ensures
            rate == if self.total_staked > 0 && scaled_rate(
                self.total_compute as nat,
                self.total_staked as nat,
            ) <= u64::MAX {
                Some(scaled_rate(self.total_compute as nat, self.total_staked as nat) as u64)
            } else {
                None
            },
    {
        if self.total_staked == 0 {
            return None;
        }
        let product: u128 = wide_product(self.total_compute, GAS_DECIMALS_MULTIPLIER);
        let rate: u128 = product / (self.total_staked as u128);
        if rate > u64::MAX as u128 {
            None
        } else {
            Some(rate as u64)
        }
    }

    /// The seed list from which the client's own address is derived: the tag
    /// `execution_client`, the registry, the owner, the bump.
    pub open spec fn spec_seeds(&self) -> Seq<Seq<u8>> {
        seq![
            "execution_client".spec_bytes(),
            self.ai_nft.bytes@,
            self.authority.bytes@,
            self.bump@,
        ]
    }

    /// The seed list from which the client's own address is derived.
    pub fn seeds(&self) -> (seeds: [&[u8]; 4])
        ensures
            seeds_view(seeds@) == self.spec_seeds(),
    {
        let seeds = [
            "execution_client".as_bytes(),
            self.ai_nft.bytes.as_slice(),
            self.authority.bytes.as_slice(),
            self.bump.as_slice(),
        ];
        assert(seeds_view(seeds@) =~= self.spec_seeds());
        seeds
    }

    /// Claim tokens to mint for `compute_amount` staked credits: the amount
    /// itself while no claim is outstanding, else
    /// `floor(compute_amount * total_staked / total_compute)`.
    ///
    /// Fails with `Overflow` when claims are outstanding against an empty
    /// vault, or when the result does not fit in 64 bits.
    pub fn calculate_stake_amount(&self, compute_amount: u64) -> (result: Result<u64, AiNftError>)
        ensures
            result == if self.total_staked > 0 && (self.total_compute == 0 || minted_claims(
                self.total_compute as nat,
                self.total_staked as nat,
                compute_amount as nat,
            ) > u64::MAX) {
                Err::<u64, AiNftError>(AiNftError::Overflow)
            } else {
                Ok::<u64, AiNftError>(
                    minted_claims(
                        self.total_compute as nat,
                        self.total_staked as nat,
                        compute_amount as nat,
                    ) as u64,
                )
            },
    {
        if self.total_staked == 0 {
            return Ok(compute_amount);
        }
        if self.total_compute == 0 {
            return Err(AiNftError::Overflow);
        }
        let product: u128 = wide_product(compute_amount, self.total_staked);
        let minted: u128 = product / (self.total_compute as u128);
        if minted > u64::MAX as u128 {
            Err(AiNftError::Overflow)
        } else {
            Ok(minted as u64)
        }
    }

    /// Compute credits to pay out for `staked_amount` claim tokens:
    /// `floor(staked_amount * total_compute / total_staked)`, and zero while
    /// no claim is outstanding.
    ///
    /// Fails with `Overflow` when the result does not fit in 64 bits.
    pub fn calculate_unstake_amount(&self, staked_amount: u64) -> (result: Result<u64, AiNftError>)
        ensures
            result == if self.total_staked == 0 {
                Ok::<u64, AiNftError>(0)
            } else if redeemed_compute(
                self.total_compute as nat,
                self.total_staked as nat,
                staked_amount as nat,
            ) > u64::MAX {
                Err::<u64, AiNftError>(AiNftError::Overflow)
            } else {
                Ok::<u64, AiNftError>(
                    redeemed_compute(
                        self.total_compute as nat,
                        self.total_staked as nat,
                        staked_amount as nat,
                    ) as u64,
                )
            },
    {
        if self.total_staked == 0 {
            return Ok(0);
        }
        let product: u128 = wide_product(staked_amount, self.total_compute);
        let paid: u128 = product / (self.total_staked as u128);
        if paid > u64::MAX as u128 {
            Err(AiNftError::Overflow)
        } else {
            Ok(paid as u64)
        }
    }

    /// Splits the gas price between stakers and the client:
    /// `floor(gas * staker_fee_share / 100)` for stakers, the rest for the
    /// client. The two parts always add up to the gas price.
    pub fn calculate_fee_split(&self) -> (split: (u64, u64))
        requires
            self.staker_fee_share <= 100,
        ensures
            split.0 == staker_portion(self.gas as nat, self.staker_fee_share as nat),
            split.0 + split.1 == self.gas,
            self.staker_fee_share == 0 ==> split.0 == 0,
            self.staker_fee_share == 100 ==> split.1 == 0,
    {
        proof {
            crate::staking_pool::lemma_staker_portion_bounds(
                self.gas as nat,
                self.staker_fee_share as nat,
            );
        }
        let product: u128 = wide_product(self.gas, self.staker_fee_share as u64);
        let staker_part: u64 = (product / 100) as u64;
        let client_part: u64 = self.gas - staker_part;
        (staker_part, client_part)
    }
}

/// The product of two 64-bit numbers, which always fits in 128 bits.
pub fn wide_product(a: u64, b: u64) -> (product: u128)
    ensures
        product == a as nat * b as nat,
{
    assert(a as nat * b as nat <= 0xffff_ffff_ffff_ffff * 0xffff_ffff_ffff_ffff) by (nonlinear_arith)
        requires
            a <= 0xffff_ffff_ffff_ffff,
            b <= 0xffff_ffff_ffff_ffff,
    ;
    (a as u128) * (b as u128)
}

} // verus!
