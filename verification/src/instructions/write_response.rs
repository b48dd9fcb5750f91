use crate::actions::ActionParams;
use crate::authority::{derived_address, Authority};
use crate::error::AiNftError;
use crate::events::ResponseWritten;
use crate::pubkey::Pubkey;
use crate::staking_pool::{staker_portion, PoolOp};
use crate::state::message_constants::MAX_RESPONSE_LENGTH;
use crate::state::{AiCharacterNFT, AiNft, ExecutionClient, MessageAiCharacter};
use crate::text::is_truncation;
use crate::token::{Account, Mint, TokenAccount, Transfer};
use vstd::prelude::*;

verus! {

/// The records that answering a message touches.
#[derive(Clone, Debug, PartialEq, Eq)]
pub struct WriteResponse {
    /// The message to answer.
    pub message: Account<MessageAiCharacter>,
    /// The registry.
    pub ai_nft: Account<AiNft>,
    /// The character the message was sent to.
    pub ai_character_nft: Account<AiCharacterNFT>,
    /// The character's compute account, which pays the fee.
    pub ai_character_compute_token_account: TokenAccount,
    /// The client's staking vault, which receives the stakers' part.
    pub staked_token_account: TokenAccount,
    /// The execution client that answers.
    pub execution_client: Account<ExecutionClient>,
    /// The mint of the compute credit.
    pub compute_mint: Mint,
    /// The client's payout account, which receives the client's part.
    pub execution_client_compute_token_address: TokenAccount,
    /// The wallet that signed.
    pub authority: Pubkey,
}

/// A response and the side effects it asks for.
#[derive(Clone, Debug, PartialEq, Eq)]
pub struct ResponseWithActions {
    pub content: String,
    pub actions: Vec<ActionParams>,
}

/// What the ledger and the dispatcher must carry out for an answer.
#[derive(Debug)]
pub struct ResponseReceipt {
    /// Moves the stakers' part of the fee into the vault; absent when that
    /// part is zero.
    pub staker_transfer: Option<Transfer>,
    /// Moves the client's part of the fee to its payout account; absent
    /// when that part is zero.
    pub client_transfer: Option<Transfer>,
    /// The side effects to route to the dispatcher, as the response asked.
    pub actions: Vec<ActionParams>,
    pub event: ResponseWritten,
}

impl WriteResponse {
    /// The first link between the records, in this order, that does not
    /// hold, if there is one.
    pub open spec fn link_error(&self) -> Option<AiNftError> {
        let client = self.execution_client.data;
        let character = self.ai_character_nft.data;
        if self.message.data.ai_character != self.ai_character_nft.key {
            Some(AiNftError::InvalidMessage)
        } else if self.ai_nft.key != client.ai_nft {
            Some(AiNftError::InvalidAiNft)
        } else if self.staked_token_account.mint != client.compute_mint {
            Some(AiNftError::InvalidComputeMint)
        } else if self.staked_token_account.key != client.stake_pool_token_account {
            Some(AiNftError::InvalidComputeVault)
        } else if client.authority != self.authority {
            Some(AiNftError::InvalidAuthority)
        } else if !client.active {
            Some(AiNftError::ExecutionClientNotActive)
        } else if character.execution_client != self.execution_client.key {
            Some(AiNftError::InvalidExecutionClient)
        } else if client.compute_mint != self.compute_mint.key {
            Some(AiNftError::InvalidComputeMint)
        } else if client.compute_token_address != self.execution_client_compute_token_address.key {
            Some(AiNftError::InvalidTransfer)
        } else if self.execution_client_compute_token_address.mint != self.compute_mint.key {
            Some(AiNftError::InvalidComputeMint)
        } else if self.ai_character_compute_token_account.key != character.compute_token_account {
            Some(AiNftError::InvalidTokenOwner)
        } else if self.message.data.answered {
            Some(AiNftError::MessageAlreadyAnswered)
        } else if client.staker_fee_share > 100 {
            Some(AiNftError::InvalidFeeShare)
        } else {
            None
        }
    }

    /// Why the answer is refused before any amount is computed, if it is: a
    /// link that does not hold, or a character that is not at the address
    /// `character_address` that its seeds derive.
    pub open spec fn refusal(&self, character_address: Option<Seq<u8>>) -> Option<AiNftError> {
        if self.link_error() is Some {
            self.link_error()
        } else if character_address != Some(self.ai_character_nft.key.bytes@) {
            Some(AiNftError::InvalidAuthority)
        } else {
            None
        }
    }

    /// The stakers' part of the fee: `floor(gas * staker_fee_share / 100)`.
    pub open spec fn staker_part(&self) -> nat {
        staker_portion(
            self.execution_client.data.gas as nat,
            self.execution_client.data.staker_fee_share as nat,
        )
    }

    /// Whether a counter or the pool would run over.
    pub open spec fn overflows(&self) -> bool {
        ||| self.execution_client.data.total_compute + self.staker_part() > u64::MAX
        ||| self.execution_client.data.total_processed == u64::MAX
        ||| self.ai_character_nft.data.total_processed == u64::MAX
    }

    /// Why the answer fails, if it does.
    pub open spec fn error(&self, character_address: Option<Seq<u8>>) -> Option<AiNftError> {
        if self.refusal(character_address) is Some {
            self.refusal(character_address)
        } else if self.overflows() {
            Some(AiNftError::Overflow)
        } else {
            None
        }
    }

    /// What a successful answer with `response` at `now` leaves behind: the
    /// records `after` and the `receipt`.
    pub open spec fn answered(
        &self,
        after: WriteResponse,
        receipt: ResponseReceipt,
        response: ResponseWithActions,
        now: i64,
    ) -> bool {
        let staker_part = self.staker_part();
        let client_part = self.execution_client.data.gas - staker_part;
        &&& staker_part + client_part == self.execution_client.data.gas
        &&& match receipt.staker_transfer {
            Some(t) => {
                &&& staker_part > 0
                &&& t.amount == staker_part
                &&& t.from == self.ai_character_compute_token_account.key
                &&& t.to == self.staked_token_account.key
                &&& t.authority.spec_account() == self.ai_character_nft.key
                &&& t.authority.spec_is_derived()
            },
            None => staker_part == 0,
        }
        &&& match receipt.client_transfer {
            Some(t) => {
                &&& client_part > 0
                &&& t.amount == client_part
                &&& t.from == self.ai_character_compute_token_account.key
                &&& t.to == self.execution_client_compute_token_address.key
                &&& t.authority.spec_account() == self.ai_character_nft.key
                &&& t.authority.spec_is_derived()
            },
            None => client_part == 0,
        }
        &&& receipt.actions == response.actions
        &&& receipt.event == (ResponseWritten {
            ai_nft: self.ai_nft.key,
            message: self.message.key,
            execution_client: self.execution_client.key,
        })
        &&& after.execution_client.key == self.execution_client.key
        &&& after.execution_client.data == (ExecutionClient {
            total_compute: (self.execution_client.data.total_compute + staker_part) as u64,
            total_processed: (self.execution_client.data.total_processed + 1) as u64,
            ..self.execution_client.data
        })
        &&& after.execution_client.data.pool() == self.execution_client.data.pool().apply(
            PoolOp::Settle(staker_part),
        )
        &&& self.execution_client.data.wf() ==> after.execution_client.data.wf()
        &&& after.ai_character_nft.key == self.ai_character_nft.key
        &&& after.ai_character_nft.data == (AiCharacterNFT {
            total_processed: (self.ai_character_nft.data.total_processed + 1) as u64,
            ..self.ai_character_nft.data
        })
        &&& after.message.key == self.message.key
        &&& after.message.data.answered
        &&& after.message.data.response is Some
        &&& is_truncation(
            response.content@,
            MAX_RESPONSE_LENGTH as nat,
            after.message.data.response->0@,
        )
        &&& after.message.data.updated_at == now
        &&& after.message.data.content == self.message.data.content
        &&& after.message.data.sender == self.message.data.sender
        &&& after.message.data.ai_nft == self.message.data.ai_nft
        &&& after.message.data.ai_character == self.message.data.ai_character
        &&& after.message.data.created_at == self.message.data.created_at
        &&& after.message.data.bump == self.message.data.bump
        &&& after.ai_nft == self.ai_nft
        &&& after.ai_character_compute_token_account == self.ai_character_compute_token_account
        &&& after.staked_token_account == self.staked_token_account
        &&& after.compute_mint == self.compute_mint
        &&& after.execution_client_compute_token_address
            == self.execution_client_compute_token_address
        &&& after.authority == self.authority
    }

    /// Checks the links between the records, in the order of `link_error`.
    fn check_links(&self) -> (result: Result<(), AiNftError>)
        ensures
            match result {
                Ok(()) => self.link_error() is None,
                Err(e) => self.link_error() == Some(e),
            },
    {
        if self.message.data.ai_character != self.ai_character_nft.key {
            return Err(AiNftError::InvalidMessage);
        }
        if self.ai_nft.key != self.execution_client.data.ai_nft {
            return Err(AiNftError::InvalidAiNft);
        }
        if self.staked_token_account.mint != self.execution_client.data.compute_mint {
            return Err(AiNftError::InvalidComputeMint);
        }
        if self.staked_token_account.key != self.execution_client.data.stake_pool_token_account {
            return Err(AiNftError::InvalidComputeVault);
        }
        if self.execution_client.data.authority != self.authority {
            return Err(AiNftError::InvalidAuthority);
        }
        if !self.execution_client.data.active {
            return Err(AiNftError::ExecutionClientNotActive);
        }
        if self.ai_character_nft.data.execution_client != self.execution_client.key {
            return Err(AiNftError::InvalidExecutionClient);
        }
        if self.execution_client.data.compute_mint != self.compute_mint.key {
            return Err(AiNftError::InvalidComputeMint);
        }
        if self.execution_client.data.compute_token_address
            != self.execution_client_compute_token_address.key {
            return Err(AiNftError::InvalidTransfer);
        }
        if self.execution_client_compute_token_address.mint != self.compute_mint.key {
            return Err(AiNftError::InvalidComputeMint);
        }
        if self.ai_character_compute_token_account.key
            != self.ai_character_nft.data.compute_token_account {
            return Err(AiNftError::InvalidTokenOwner);
        }
        if self.message.data.answered {
            return Err(AiNftError::MessageAlreadyAnswered);
        }
        if self.execution_client.data.staker_fee_share > 100 {
            return Err(AiNftError::InvalidFeeShare);
        }
        Ok(())
    }
}

/// Records the execution client's answer to a message and settles the fee.
///
/// `character_authority` is the capability derived from the character's
/// seeds; it must control the character's own address.
///
/// The gas price is split between the stakers' vault and the client's payout
/// account, both paid from the character's compute account under the
/// character's authority. The stakers' part is added to the pool, which
/// raises the exchange rate; the client and the character each count one
/// more answered message; the response, cut to `MAX_RESPONSE_LENGTH` bytes,
/// is written and the message closed at `now`.
///
/// Any failure, a second answer to the same message among them, leaves
/// every record as it was and orders no transfer.
pub fn write_response_handler(
    ctx: &mut WriteResponse,
    character_authority: Option<Authority>,
    response: ResponseWithActions,
    now: i64,
) -> (result: Result<ResponseReceipt, AiNftError>)
    ensures
        old(ctx).message.data.answered ==> result is Err,
        match result {
            Err(e) => {
                &&& old(ctx).error(derived_address(character_authority)) == Some(e)
                &&& *final(ctx) == *old(ctx)
            },
            Ok(receipt) => {
                &&& old(ctx).error(derived_address(character_authority)) is None
                &&& old(ctx).answered(*final(ctx), receipt, response, now)
                &&& receipt.staker_transfer is Some ==> {
                    receipt.staker_transfer->0.authority.spec_seeds()
                        == character_authority->0.spec_seeds()
                }
                &&& receipt.client_transfer is Some ==> {
                    receipt.client_transfer->0.authority.spec_seeds()
                        == character_authority->0.spec_seeds()
                }
            },
        },
{
    match ctx.check_links() {
        Err(e) => {
            return Err(e);
        },
        Ok(()) => {},
    }
    let character_key = ctx.ai_character_nft.key;
    let staker_authority = match character_authority {
        Some(a) => a,
        None => {
            return Err(AiNftError::InvalidAuthority);
        },
    };
    proof {
        Pubkey::lemma_same_bytes(staker_authority.spec_account(), character_key);
    }
    if !staker_authority.controls_by_derivation(&character_key) {
        return Err(AiNftError::InvalidAuthority);
    }
    let client_authority = staker_authority.duplicate();
    let (staker_part, client_part) = ctx.execution_client.data.calculate_fee_split();
    if ctx.execution_client.data.total_compute > u64::MAX - staker_part {
        return Err(AiNftError::Overflow);
    }
    if ctx.execution_client.data.total_processed == u64::MAX {
        return Err(AiNftError::Overflow);
    }
    if ctx.ai_character_nft.data.total_processed == u64::MAX {
        return Err(AiNftError::Overflow);
    }
    let from = ctx.ai_character_compute_token_account.key;
    let staker_transfer = if staker_part > 0 {
        Some(
            Transfer {
                from,
                to: ctx.staked_token_account.key,
                authority: staker_authority,
                amount: staker_part,
            },
        )
    } else {
        None
    };
    let client_transfer = if client_part > 0 {
        Some(
            Transfer {
                from,
                to: ctx.execution_client_compute_token_address.key,
                authority: client_authority,
                amount: client_part,
            },
        )
    } else {
        None
    };
    let gas = ctx.execution_client.data.get_gas();
    match ctx.execution_client.data.add_fees(gas) {
        Ok(()) => {},
        Err(e) => {
            return Err(e);
        },
    }
    match ctx.execution_client.data.update_total_processed(1) {
        Ok(()) => {},
        Err(e) => {
            return Err(e);
        },
    }
    match ctx.ai_character_nft.data.update_total_processed() {
        Ok(()) => {},
        Err(e) => {
            return Err(e);
        },
    }
    match ctx.message.data.answer(response.content.as_str(), now) {
        Ok(()) => {},
        Err(e) => {
            return Err(e);
        },
    }
    Ok(
        ResponseReceipt {
            staker_transfer,
            client_transfer,
            actions: response.actions,
            event: ResponseWritten {
                ai_nft: ctx.ai_nft.key,
                message: ctx.message.key,
                execution_client: ctx.execution_client.key,
            },
        },
    )
}

} // verus!
