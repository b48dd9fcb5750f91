use crate::authority::{address_bytes, derive_address, is_address, program_address, seeds_view};
use crate::error::AiNftError;
use crate::pubkey::Pubkey;
use crate::state::{AiNft, ExecutionClient, MAX_GAS};
use crate::token::{Account, Mint, TokenAccount};
use vstd::prelude::*;
use vstd::string::StringSliceAdditionalSpecFns;

verus! {

/// Decimals of every claim-token mint.
pub const STAKED_MINT_DECIMALS: u8 = 9;

/// An execution client was registered.
#[derive(Clone, Debug, PartialEq, Eq)]
pub struct ExecutionClientRegistered {
    pub authority: Pubkey,
    pub execution_client: Pubkey,
    pub gas: u64,
    pub stake: u64,
    pub supported_message_types: Vec<String>,
}

/// The records that registering an execution client touches.
#[derive(Clone, Debug, PartialEq, Eq)]
pub struct RegisterExecutionClient {
    /// The registry the client joins.
    pub ai_nft: Account<AiNft>,
    /// The slot the client is created in; it must be empty.
    pub execution_client: Account<Option<ExecutionClient>>,
    /// The address of the client's payout account, to be created.
    pub compute_token_account: Pubkey,
    /// The address of the stakers' vault, to be created.
    pub staked_token_account: Pubkey,
    /// The mint of the compute credit.
    pub compute_mint: Pubkey,
    /// The operator, who signed.
    pub signer: Pubkey,
    /// The address of the client's claim-token mint, to be created.
    pub staked_mint: Pubkey,
}

/// What the ledger must set up for a new client, and what is reported of
/// the registration.
#[derive(Clone, Debug, PartialEq, Eq)]
pub struct RegistrationReceipt {
    /// The claim-token mint to create: nothing minted yet, and only the
    /// client record itself may mint.
    pub staked_mint: Mint,
    /// The stakers' vault to create: empty, holding compute credits, and
    /// controlled by the registry.
    pub staked_token_account: TokenAccount,
    /// The payout account to create: empty, holding compute credits, and
    /// controlled by the client record.
    pub compute_token_account: TokenAccount,
    pub event: ExecutionClientRegistered,
}

/// The seed list from which the address of the client that `authority`
/// runs under `ai_nft` is derived: the tag `execution_client`, the registry,
/// the operator, the bump.
pub open spec fn execution_client_seeds(
    ai_nft: Pubkey,
    authority: Pubkey,
    bump: u8,
) -> Seq<Seq<u8>> {
    seq!["execution_client".spec_bytes(), ai_nft.bytes@, authority.bytes@, seq![bump]]
}

/// The address derived under `program_id` for the client that `authority`
/// runs under `ai_nft`, if the seeds derive one.
pub fn execution_client_address(
    ai_nft: &Pubkey,
    authority: &Pubkey,
    bump: u8,
    program_id: &Pubkey,
) -> (address: Option<Pubkey>)
    ensures
        address_bytes(address) == program_address(
            execution_client_seeds(*ai_nft, *authority, bump),
            program_id.bytes@,
        ),
{
    let bump_seed = [bump];
    let seeds = [
        "execution_client".as_bytes(),
        ai_nft.bytes.as_slice(),
        authority.bytes.as_slice(),
        bump_seed.as_slice(),
    ];
    assert(bump_seed@ =~= seq![bump]);
    assert(seeds_view(seeds@) =~= execution_client_seeds(*ai_nft, *authority, bump));
    derive_address(seeds.as_slice(), program_id)
}

impl RegisterExecutionClient {
    /// Why the registration fails, if it does: the first condition, in this
    /// order, that does not hold. `client_address` is the address derived
    /// for the client from the registry, the signer and the bump.
    pub open spec fn error(
        &self,
        client_address: Option<Seq<u8>>,
        gas: u64,
        staker_fee_share: u8,
        execution_client_bump: u8,
    ) -> Option<AiNftError> {
        if self.ai_nft.data.compute_mint.is_zero() {
            Some(AiNftError::ComputeMintNotInitialized)
        } else if self.execution_client.data is Some {
            Some(AiNftError::InvalidExecutionClient)
        } else if self.compute_mint != self.ai_nft.data.compute_mint {
            Some(AiNftError::InvalidComputeMint)
        } else if staker_fee_share > 100 {
            Some(AiNftError::InvalidFeeShare)
        } else if gas > MAX_GAS {
            Some(AiNftError::InvalidGasAmount)
        } else if execution_client_bump == 0 {
            Some(AiNftError::InvalidExecutionClientBump)
        } else if client_address != Some(self.execution_client.key.bytes@) {
            Some(AiNftError::InvalidExecutionClientBump)
        } else {
            None
        }
    }

    /// What a successful registration leaves behind: the records `after`
    /// and the `receipt`.
    pub open spec fn registered(
        &self,
        after: RegisterExecutionClient,
        receipt: RegistrationReceipt,
        gas: u64,
        supported_message_types: Vec<String>,
        staker_fee_share: u8,
        execution_client_bump: u8,
    ) -> bool {
        &&& receipt.staked_mint == (Mint {
            key: self.staked_mint,
            mint_authority: Some(self.execution_client.key),
            supply: 0,
            decimals: STAKED_MINT_DECIMALS,
        })
        &&& receipt.staked_token_account == (TokenAccount {
            key: self.staked_token_account,
            mint: self.compute_mint,
            owner: self.ai_nft.key,
            amount: 0,
        })
        &&& receipt.compute_token_account == (TokenAccount {
            key: self.compute_token_account,
            mint: self.compute_mint,
            owner: self.execution_client.key,
            amount: 0,
        })
        &&& receipt.event.authority == self.signer
        &&& receipt.event.execution_client == self.execution_client.key
        &&& receipt.event.gas == gas
        &&& receipt.event.stake == 0
        &&& receipt.event.supported_message_types@ == supported_message_types@
        &&& after.execution_client.key == self.execution_client.key
        &&& after.execution_client.data is Some
        &&& ({
            let client = after.execution_client.data->0;
            &&& client.ai_nft == self.ai_nft.key
            &&& client.authority == self.signer
            &&& client.compute_token_address == self.compute_token_account
            &&& client.gas == gas
            &&& client.compute_mint == self.compute_mint
            &&& client.liquid_staking_token_mint == self.staked_mint
            &&& client.stake_pool_token_account == self.staked_token_account
            &&& client.total_compute == 0
            &&& client.total_staked == 0
            &&& client.total_processed == 0
            &&& client.staker_fee_share == staker_fee_share
            &&& client.active
            &&& client.bump@ == seq![execution_client_bump]
            &&& client.supported_message_types == supported_message_types
            &&& client.wf()
            &&& client.spec_seeds() == execution_client_seeds(
                self.ai_nft.key,
                self.signer,
                execution_client_bump,
            )
        })
        &&& after.ai_nft == self.ai_nft
        &&& after.compute_token_account == self.compute_token_account
        &&& after.staked_token_account == self.staked_token_account
        &&& after.compute_mint == self.compute_mint
        &&& after.signer == self.signer
        &&& after.staked_mint == self.staked_mint
    }
}

/// Copies a list of texts.
fn copy_texts(texts: &Vec<String>) -> (copy: Vec<String>)
    ensures
        copy@ == texts@,
{
    let mut copy: Vec<String> = Vec::new();
    let mut i: usize = 0;
    while i < texts.len()
        invariant
            i <= texts@.len(),
            copy@ == texts@.subrange(0, i as int),
        decreases texts@.len() - i,
    {
        copy.push(texts[i].clone());
        assert(copy@ =~= texts@.subrange(0, i + 1));
        i += 1;
    }
    assert(texts@.subrange(0, i as int) =~= texts@);
    copy
}

/// Registers the signer as an execution client of the registry.
///
/// `client_address` is the address derived for the client from the
/// registry, the signer and the bump; the slot offered must lie there.
///
/// The registry's credit mint must be set and the client's slot empty. A
/// fee share above one hundred percent is refused with `InvalidFeeShare`, a
/// gas price above the cap with `InvalidGasAmount`, and a bump that is zero
/// or does not derive the slot's address with
/// `InvalidExecutionClientBump`. On success the slot holds an active client
/// with an empty pool and nothing processed, linked to the three accounts
/// that the receipt tells the ledger to create.
///
/// Any failure leaves every record as it was: no client is created.
pub fn register_execution_client_handler(
    ctx: &mut RegisterExecutionClient,
    client_address: Option<Pubkey>,
    gas: u64,
    supported_message_types: Vec<String>,
    staker_fee_share: u8,
    execution_client_bump: u8,
) -> (result: Result<RegistrationReceipt, AiNftError>)
    ensures
        staker_fee_share > 100 ==> result is Err && final(ctx).execution_client.data == old(
            ctx,
        ).execution_client.data,
        match result {
            Err(e) => old(ctx).error(
                address_bytes(client_address),
                gas,
                staker_fee_share,
                execution_client_bump,
            ) == Some(e) && *final(ctx) == *old(ctx),
            Ok(receipt) => {
                &&& old(ctx).error(
                    address_bytes(client_address),
                    gas,
                    staker_fee_share,
                    execution_client_bump,
                ) is None
                &&& old(ctx).registered(
                    *final(ctx),
                    receipt,
                    gas,
                    supported_message_types,
                    staker_fee_share,
                    execution_client_bump,
                )
            },
        },
{
    if ctx.ai_nft.data.compute_mint.is_default() {
        return Err(AiNftError::ComputeMintNotInitialized);
    }
    if ctx.execution_client.data.is_some() {
        return Err(AiNftError::InvalidExecutionClient);
    }
    if ctx.compute_mint != ctx.ai_nft.data.compute_mint {
        return Err(AiNftError::InvalidComputeMint);
    }
    if staker_fee_share > 100 {
        return Err(AiNftError::InvalidFeeShare);
    }
    if gas > MAX_GAS {
        return Err(AiNftError::InvalidGasAmount);
    }
    if execution_client_bump == 0 {
        return Err(AiNftError::InvalidExecutionClientBump);
    }
    if !is_address(&client_address, &ctx.execution_client.key) {
        return Err(AiNftError::InvalidExecutionClientBump);
    }
    let announced = copy_texts(&supported_message_types);
    let mut client = ExecutionClient::default();
    match client.set(
        ctx.ai_nft.key,
        ctx.signer,
        gas,
        ctx.compute_mint,
        execution_client_bump,
        supported_message_types,
        ctx.staked_mint,
        ctx.staked_token_account,
        ctx.compute_token_account,
        staker_fee_share,
    ) {
        Ok(()) => {},
        Err(e) => {
            return Err(e);
        },
    }
    ctx.execution_client.data = Some(client);
    Ok(
        RegistrationReceipt {
            staked_mint: Mint {
                key: ctx.staked_mint,
                mint_authority: Some(ctx.execution_client.key),
                supply: 0,
                decimals: STAKED_MINT_DECIMALS,
            },
            staked_token_account: TokenAccount {
                key: ctx.staked_token_account,
                mint: ctx.compute_mint,
                owner: ctx.ai_nft.key,
                amount: 0,
            },
            compute_token_account: TokenAccount {
                key: ctx.compute_token_account,
                mint: ctx.compute_mint,
                owner: ctx.execution_client.key,
                amount: 0,
            },
            event: ExecutionClientRegistered {
                authority: ctx.signer,
                execution_client: ctx.execution_client.key,
                gas,
                stake: 0,
                supported_message_types: announced,
            },
        },
    )
}

} // verus!
