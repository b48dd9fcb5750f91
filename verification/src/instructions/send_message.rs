use crate::authority::{
    address_bytes, derive_address, is_address, program_address, seeds_view, Authority,
};
use crate::error::AiNftError;
use crate::events::MessageSent;
use crate::program::PaymentPolicy;
use crate::pubkey::Pubkey;
use crate::state::message::message_seeds;
use crate::state::message_constants::MAX_CONTENT_LENGTH;
use crate::state::{AiCharacterNFT, AiNft, MessageAiCharacter};
use crate::text::is_truncation;
use crate::token::{Account, TokenAccount, Transfer};
use vstd::bytes::u64_to_le_bytes;
use vstd::prelude::*;

verus! {

/// The records that sending a message touches.
#[derive(Clone, Debug, PartialEq, Eq)]
pub struct SendMessage {
    /// The slot the message is created in; it must be empty.
    pub message: Account<Option<MessageAiCharacter>>,
    /// The bump of the slot's address.
    pub message_bump: u8,
    /// The registry.
    pub ai_nft: Account<AiNft>,
    /// The character that receives the message.
    pub ai_character: Account<AiCharacterNFT>,
    /// The character's compute account, which receives the payment.
    pub compute_token_receiver: TokenAccount,
    /// The sender's compute account, which pays.
    pub sender_compute_token: TokenAccount,
    /// The sender, who signed.
    pub sender: Pubkey,
}

/// What the ledger must carry out for a sent message, and what is reported
/// of it.
#[derive(Debug)]
pub struct SendReceipt {
    /// Moves one unit from the sender to the character; present exactly
    /// under the policy that charges when a message is sent.
    pub transfer: Option<Transfer>,
    /// The number of the message within its character.
    pub sequence: u64,
    pub event: MessageSent,
}

impl SendMessage {
    /// The first condition on the records, in this order, that does not
    /// hold, if there is one.
    pub open spec fn link_error(&self) -> Option<AiNftError> {
        if self.message.data is Some {
            Some(AiNftError::MessageAlreadyExists)
        } else if self.compute_token_receiver.mint != self.ai_nft.data.compute_mint {
            Some(AiNftError::InvalidComputeMint)
        } else if self.compute_token_receiver.owner != self.ai_character.key {
            Some(AiNftError::InvalidTokenOwner)
        } else if self.sender_compute_token.mint != self.ai_nft.data.compute_mint {
            Some(AiNftError::InvalidComputeMint)
        } else if self.sender_compute_token.owner != self.sender {
            Some(AiNftError::InvalidTokenOwner)
        } else if self.sender_compute_token.amount < 1 {
            Some(AiNftError::InsufficientCompute)
        } else {
            None
        }
    }

    /// The seed list of the slot that the character's next message goes to.
    pub open spec fn slot_seeds(&self) -> Seq<Seq<u8>> {
        message_seeds(
            self.ai_nft.key,
            self.ai_character.key,
            self.ai_character.data.message_count,
            self.message_bump,
        )
    }

    /// Why the message is refused, if it is: a condition that does not
    /// hold, a slot that is not at the address `slot_address` derived for
    /// the character's next message number, or a number that has run out.
    pub open spec fn error(&self, slot_address: Option<Seq<u8>>) -> Option<AiNftError> {
        if self.link_error() is Some {
            self.link_error()
        } else if slot_address != Some(self.message.key.bytes@) {
            Some(AiNftError::InvalidMessage)
        } else if self.ai_character.data.message_count == u64::MAX {
            Some(AiNftError::Overflow)
        } else {
            None
        }
    }

    /// What a successful send of `content` at `now` under `policy` leaves
    /// behind: the records `after` and the `receipt`.
    pub open spec fn sent(
        &self,
        after: SendMessage,
        receipt: SendReceipt,
        policy: PaymentPolicy,
        content: Seq<char>,
        now: i64,
    ) -> bool {
        &&& receipt.sequence == self.ai_character.data.message_count
        &&& match receipt.transfer {
            Some(t) => {
                &&& policy == PaymentPolicy::ChargeAtSend
                &&& t.from == self.sender_compute_token.key
                &&& t.to == self.compute_token_receiver.key
                &&& t.amount == 1
                &&& t.authority.spec_account() == self.sender
                &&& !t.authority.spec_is_derived()
            },
            None => policy == PaymentPolicy::ChargeAtAnswer,
        }
        &&& receipt.event == (MessageSent {
            ai_nft: self.ai_nft.key,
            message: self.message.key,
            sender: self.sender,
        })
        &&& after.ai_character.key == self.ai_character.key
        &&& after.ai_character.data == (AiCharacterNFT {
            message_count: (self.ai_character.data.message_count + 1) as u64,
            ..self.ai_character.data
        })
        &&& after.message.key == self.message.key
        &&& after.message.data is Some
        &&& ({
            let message = after.message.data->0;
            &&& message.ai_nft == self.ai_nft.key
            &&& message.ai_character == self.ai_character.key
            &&& message.sender == self.sender
            &&& is_truncation(content, MAX_CONTENT_LENGTH as nat, message.content@)
            &&& message.is_open()
            &&& message.created_at == now
            &&& message.updated_at == now
            &&& message.bump == self.message_bump
        })
        &&& after.message_bump == self.message_bump
        &&& after.ai_nft == self.ai_nft
        &&& after.compute_token_receiver == self.compute_token_receiver
        &&& after.sender_compute_token == self.sender_compute_token
        &&& after.sender == self.sender
    }

    /// Checks the conditions of `link_error`, in its order.
    fn check_links(&self) -> (result: Result<(), AiNftError>)
        ensures
            match result {
                Ok(()) => self.link_error() is None,
                Err(e) => self.link_error() == Some(e),
            },
    {
        if self.message.data.is_some() {
            return Err(AiNftError::MessageAlreadyExists);
        }
        if self.compute_token_receiver.mint != self.ai_nft.data.compute_mint {
            return Err(AiNftError::InvalidComputeMint);
        }
        if self.compute_token_receiver.owner != self.ai_character.key {
            return Err(AiNftError::InvalidTokenOwner);
        }
        if self.sender_compute_token.mint != self.ai_nft.data.compute_mint {
            return Err(AiNftError::InvalidComputeMint);
        }
        if self.sender_compute_token.owner != self.sender {
            return Err(AiNftError::InvalidTokenOwner);
        }
        if self.sender_compute_token.amount < 1 {
            return Err(AiNftError::InsufficientCompute);
        }
        Ok(())
    }

    /// The address derived under `program_id` for the slot of the
    /// character's next message, if the seeds derive one.
    pub fn slot_address(&self, program_id: &Pubkey) -> (address: Option<Pubkey>)
        ensures
            address_bytes(address) == program_address(self.slot_seeds(), program_id.bytes@),
    {
        let index = u64_to_le_bytes(self.ai_character.data.message_count);
        let bump = [self.message_bump];
        let seeds = [
            "message".as_bytes(),
            self.ai_nft.key.bytes.as_slice(),
            self.ai_character.key.bytes.as_slice(),
            index.as_slice(),
            bump.as_slice(),
        ];
        assert(bump@ =~= seq![self.message_bump]);
        assert(seeds_view(seeds@) =~= self.slot_seeds());
        derive_address(seeds.as_slice(), program_id)
    }
}

/// A message slot that is taken refuses every further message: of two
/// sends to one slot, the second fails.
pub proof fn lemma_taken_slot_refuses(ctx: SendMessage, slot_address: Option<Seq<u8>>)
    requires
        ctx.message.data is Some,
    ensures
        ctx.error(slot_address) == Some(AiNftError::MessageAlreadyExists),
{
}

/// Sends `content` to an AI character at `now`.
///
/// `slot_address` is the address derived for the slot of the character's
/// next message number; the slot offered must lie there.
///
/// The sender must hold at least one unit of compute. The message is
/// created, open, in that slot, its content cut to `MAX_CONTENT_LENGTH`
/// bytes, and the character's message count grows by one. Under the policy
/// that charges on sending, one unit is ordered from the sender to the
/// character.
///
/// Any failure leaves every record as it was and orders nothing.
pub fn send_message_handler(
    ctx: &mut SendMessage,
    policy: PaymentPolicy,
    slot_address: Option<Pubkey>,
    content: String,
    now: i64,
) -> (result: Result<SendReceipt, AiNftError>)
    ensures
        old(ctx).message.data is Some ==> result is Err,
        match result {
            Err(e) => old(ctx).error(address_bytes(slot_address)) == Some(e) && *final(ctx)
                == *old(ctx),
            Ok(receipt) => {
                &&& old(ctx).error(address_bytes(slot_address)) is None
                &&& old(ctx).sent(*final(ctx), receipt, policy, content@, now)
                &&& final(ctx).ai_character.data.message_count > old(
                    ctx,
                ).ai_character.data.message_count
            },
        },
{
    match ctx.check_links() {
        Err(e) => {
            return Err(e);
        },
        Ok(()) => {},
    }
    if !is_address(&slot_address, &ctx.message.key) {
        return Err(AiNftError::InvalidMessage);
    }
    let sequence = ctx.ai_character.data.message_count;
    if sequence == u64::MAX {
        return Err(AiNftError::Overflow);
    }
    let transfer = match policy {
        PaymentPolicy::ChargeAtSend => Some(
            Transfer {
                from: ctx.sender_compute_token.key,
                to: ctx.compute_token_receiver.key,
                authority: Authority::signer(ctx.sender),
                amount: 1,
            },
        ),
        PaymentPolicy::ChargeAtAnswer => None,
    };
    let message = MessageAiCharacter::new(
        &ctx.ai_nft.key,
        &ctx.ai_character.key,
        &ctx.sender,
        content.as_str(),
        ctx.message_bump,
        now,
    );
    ctx.message.data = Some(message);
    ctx.ai_character.data.update_message_count(sequence + 1);
    Ok(
        SendReceipt {
            transfer,
            sequence,
            event: MessageSent {
                ai_nft: ctx.ai_nft.key,
                message: ctx.message.key,
                sender: ctx.sender,
            },
        },
    )
}

} // verus!
