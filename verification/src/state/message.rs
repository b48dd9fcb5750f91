use crate::error::AiNftError;
use crate::pubkey::Pubkey;
use crate::state::message_constants::{MAX_CONTENT_LENGTH, MAX_RESPONSE_LENGTH};
use crate::text::{is_truncation, truncate_str};
use vstd::bytes::{lemma_auto_spec_u64_to_from_le_bytes, spec_u64_to_le_bytes};
use vstd::prelude::*;
use vstd::string::StringSliceAdditionalSpecFns;
use vstd::utf8::encode_utf8;

verus! {

/// A message sent to an AI character, and the one response it may get.
#[derive(Clone, Debug, PartialEq, Eq)]
pub struct MessageAiCharacter {
    pub ai_nft: Pubkey,
    pub ai_character: Pubkey,
    pub sender: Pubkey,
    /// At most `MAX_CONTENT_LENGTH` bytes.
    pub content: String,
    /// At most `MAX_RESPONSE_LENGTH` bytes; absent until answered.
    pub response: Option<String>,
    pub answered: bool,
    pub created_at: i64,
    pub updated_at: i64,
    pub bump: u8,
}

/// The seed list from which the address of a character's message number
/// `index` is derived: the tag `message`, the registry, the character, the
/// number in eight little-endian bytes, the bump.
pub open spec fn message_seeds(
    ai_nft: Pubkey,
    ai_character: Pubkey,
    index: u64,
    bump: u8,
) -> Seq<Seq<u8>> {
    seq![
        "message".spec_bytes(),
        ai_nft.bytes@,
        ai_character.bytes@,
        spec_u64_to_le_bytes(index),
        seq![bump],
    ]
}

/// Two message slots have the same seed list only if they belong to the
/// same registry and character and carry the same number: no number is
/// used for two messages of one character.
pub proof fn lemma_message_seeds_injective(
    ai_nft: Pubkey,
    ai_character: Pubkey,
    index: u64,
    bump: u8,
    other_ai_nft: Pubkey,
    other_ai_character: Pubkey,
    other_index: u64,
    other_bump: u8,
)
    requires
        message_seeds(ai_nft, ai_character, index, bump) == message_seeds(
            other_ai_nft,
            other_ai_character,
            other_index,
            other_bump,
        ),
    ensures
        ai_nft == other_ai_nft,
        ai_character == other_ai_character,
        index == other_index,
        bump == other_bump,
{
    let a = message_seeds(ai_nft, ai_character, index, bump);
    let b = message_seeds(other_ai_nft, other_ai_character, other_index, other_bump);
    assert(a[1] == b[1]);
    assert(a[2] == b[2]);
    assert(a[3] == b[3]);
    assert(a[4] == b[4]);
    Pubkey::lemma_same_bytes(ai_nft, other_ai_nft);
    Pubkey::lemma_same_bytes(ai_character, other_ai_character);
    lemma_auto_spec_u64_to_from_le_bytes();
    assert(seq![bump][0] == seq![other_bump][0]);
}

impl MessageAiCharacter {
    /// The message is open: not answered, and without a response.
    pub open spec fn is_open(&self) -> bool {
        !self.answered && self.response is None
    }

    /// An open message created at `now`, its content cut to
    /// `MAX_CONTENT_LENGTH` bytes.
    pub fn new(
        ai_nft: &Pubkey,
        ai_character: &Pubkey,
        sender: &Pubkey,
        content: &str,
        bump: u8,
        now: i64,
    ) -> (message: Self)
        ensures
            message.ai_nft == *ai_nft,
            message.ai_character == *ai_character,
            message.sender == *sender,
            is_truncation(content@, MAX_CONTENT_LENGTH as nat, message.content@),
            encode_utf8(message.content@).len() <= MAX_CONTENT_LENGTH,
            message.is_open(),
            message.created_at == now,
            message.updated_at == now,
            message.bump == bump,
    {
        MessageAiCharacter {
            ai_nft: *ai_nft,
            ai_character: *ai_character,
            sender: *sender,
            content: truncate_str(content, MAX_CONTENT_LENGTH),
            response: None,
            answered: false,
            created_at: now,
            updated_at: now,
            bump,
        }
    }

    /// Records the one response, cut to `MAX_RESPONSE_LENGTH` bytes, and
    /// closes the message at `now`.
    ///
    /// A message that was answered before refuses with
    /// `MessageAlreadyAnswered` and stays as it was.
    pub fn answer(&mut self, response: &str, now: i64) -> (result: Result<(), AiNftError>)
        ensures
            old(self).answered ==> result == Err::<(), AiNftError>(
                AiNftError::MessageAlreadyAnswered,
            ) && *final(self) == *old(self),
            !old(self).answered ==> {
                &&& result is Ok
                &&& final(self).answered
                &&& final(self).response is Some
                &&& is_truncation(
                    response@,
                    MAX_RESPONSE_LENGTH as nat,
                    final(self).response->0@,
                )
                &&& encode_utf8(final(self).response->0@).len() <= MAX_RESPONSE_LENGTH
                &&& final(self).updated_at == now
                &&& final(self).ai_nft == old(self).ai_nft
                &&& final(self).ai_character == old(self).ai_character
                &&& final(self).sender == old(self).sender
                &&& final(self).content == old(self).content
                &&& final(self).created_at == old(self).created_at
                &&& final(self).bump == old(self).bump
            },
    {
        if self.answered {
            return Err(AiNftError::MessageAlreadyAnswered);
        }
        self.response = Some(truncate_str(response, MAX_RESPONSE_LENGTH));
        self.answered = true;
        self.updated_at = now;
        Ok(())
    }
}

} // verus!
