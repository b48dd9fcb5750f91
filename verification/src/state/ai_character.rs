use crate::authority::seeds_view;
use crate::error::AiNftError;
use crate::pubkey::Pubkey;
use crate::state::character_config::{fixed_bytes, CharacterConfig, CharacterConfigInput};
use vstd::prelude::*;
use vstd::string::StringSliceAdditionalSpecFns;

verus! {

/// An AI character: who answers for it, what pays for it, and how many
/// messages it has received.
#[derive(Clone, Debug, PartialEq, Eq)]
pub struct AiCharacterNFT {
    /// The registry the character belongs to.
    pub app_ai_nft_mint: Pubkey,
    pub character_nft_mint: Pubkey,
    /// The name, cut or zero-padded to 32 bytes.
    pub name: [u8; 32],
    /// The personality record the character uses.
    pub character_config_pubkey: Pubkey,
    /// Messages sent to the character so far: the sequence number of the
    /// next one.
    pub message_count: u64,
    /// Messages answered so far.
    pub total_processed: u64,
    /// The account that holds the character's compute credits.
    pub compute_token_account: Pubkey,
    /// The execution client assigned to answer.
    pub execution_client: Pubkey,
    pub bump: [u8; 1],
    /// Whether the character was minted ahead of sale.
    pub is_preminted: bool,
    /// Whether a user has taken the character.
    pub is_minted: bool,
}

impl AiCharacterNFT {
    /// The seed list from which the character's signing address is derived:
    /// the tag `ainft`, the character's mint, the bump.
    pub open spec fn spec_seeds(&self) -> Seq<Seq<u8>> {
        seq!["ainft".spec_bytes(), self.character_nft_mint.bytes@, self.bump@]
    }

    /// The seed list from which the character's signing address is derived.
    pub fn as_seeds(&self) -> (seeds: [&[u8]; 3])
        ensures
            seeds_view(seeds@) == self.spec_seeds(),
    {
        let seeds = [
            "ainft".as_bytes(),
            self.character_nft_mint.bytes.as_slice(),
            self.bump.as_slice(),
        ];
        assert(seeds_view(seeds@) =~= self.spec_seeds());
        seeds
    }

    /// A character without messages; an absent client or compute account is
    /// recorded as the all-zero key.
    pub fn try_new(
        app_ai_nft_mint: &Pubkey,
        character_nft_mint: &Pubkey,
        name: &str,
        execution_client: Option<Pubkey>,
        compute_token_account: Option<Pubkey>,
        character_config_pubkey: &Pubkey,
        bump: u8,
    ) -> (character: Self)
        ensures
            character.app_ai_nft_mint == *app_ai_nft_mint,
            character.character_nft_mint == *character_nft_mint,
            character.name@ == fixed_bytes(name.spec_bytes(), 32),
            character.character_config_pubkey == *character_config_pubkey,
            character.message_count == 0,
            character.total_processed == 0,
            match execution_client {
                Some(key) => character.execution_client == key,
                None => character.execution_client.is_zero(),
            },
            match compute_token_account {
                Some(key) => character.compute_token_account == key,
                None => character.compute_token_account.is_zero(),
            },
            character.bump@ == seq![bump],
            !character.is_preminted,
            !character.is_minted,
    {
        let character = AiCharacterNFT {
            app_ai_nft_mint: *app_ai_nft_mint,
            character_nft_mint: *character_nft_mint,
            name: CharacterConfig::string_to_fixed_bytes(name),
            message_count: 0,
            total_processed: 0,
            execution_client: match execution_client {
                Some(key) => key,
                None => Pubkey::default(),
            },
            compute_token_account: match compute_token_account {
                Some(key) => key,
                None => Pubkey::default(),
            },
            character_config_pubkey: *character_config_pubkey,
            bump: [bump],
            is_preminted: false,
            is_minted: false,
        };
        assert(character.bump@ =~= seq![bump]);
        character
    }

    /// Rewrites the character's identity and links and resets the count of
    /// answered messages; the count of messages sent and the two minting
    /// flags stay.
    pub fn set(
        &mut self,
        app_ai_nft_mint: &Pubkey,
        character_nft_mint: &Pubkey,
        name: &str,
        execution_client: &Pubkey,
        compute_token_account: Pubkey,
        character_config_pubkey: &Pubkey,
        bump: u8,
    )
        ensures
            final(self).app_ai_nft_mint == *app_ai_nft_mint,
            final(self).character_nft_mint == *character_nft_mint,
            final(self).name@ == fixed_bytes(name.spec_bytes(), 32),
            final(self).execution_client == *execution_client,
            final(self).compute_token_account == compute_token_account,
            final(self).character_config_pubkey == *character_config_pubkey,
            final(self).total_processed == 0,
            final(self).bump@ == seq![bump],
            final(self).message_count == old(self).message_count,
            final(self).is_preminted == old(self).is_preminted,
            final(self).is_minted == old(self).is_minted,
    {
        self.app_ai_nft_mint = *app_ai_nft_mint;
        self.character_nft_mint = *character_nft_mint;
        self.name = CharacterConfig::string_to_fixed_bytes(name);
        self.execution_client = *execution_client;
        self.compute_token_account = compute_token_account;
        self.character_config_pubkey = *character_config_pubkey;
        self.total_processed = 0;
        self.bump = [bump];
        assert(self.bump@ =~= seq![bump]);
    }

    pub fn update_character_config_pubkey(&mut self, character_config_pubkey: Pubkey)
        ensures
            *final(self) == (AiCharacterNFT { character_config_pubkey, ..*old(self) }),
    {
        self.character_config_pubkey = character_config_pubkey;
    }

    pub fn update_compute_token_account(&mut self, compute_token_account: Pubkey)
        ensures
            *final(self) == (AiCharacterNFT { compute_token_account, ..*old(self) }),
    {
        self.compute_token_account = compute_token_account;
    }

    pub fn update_message_count(&mut self, message_count: u64)
        ensures
            *final(self) == (AiCharacterNFT { message_count, ..*old(self) }),
    {
        self.message_count = message_count;
    }

    /// Counts one more answered message; fails with `Overflow`, changing
    /// nothing, when the count is at its limit.
    pub fn update_total_processed(&mut self) -> (result: Result<(), AiNftError>)
        ensures
            old(self).total_processed < u64::MAX ==> result is Ok && *final(self) == (
            AiCharacterNFT { total_processed: (old(self).total_processed + 1) as u64, ..*old(self) }),
            old(self).total_processed == u64::MAX ==> result == Err::<(), AiNftError>(
                AiNftError::Overflow,
            ) && *final(self) == *old(self),
    {
        match self.total_processed.checked_add(1) {
            Some(total) => {
                self.total_processed = total;
                Ok(())
            },
            None => Err(AiNftError::Overflow),
        }
    }

    pub fn update_execution_client(&mut self, execution_client: Pubkey)
        ensures
            *final(self) == (AiCharacterNFT { execution_client, ..*old(self) }),
    {
        self.execution_client = execution_client;
    }

    pub fn set_preminted(&mut self, is_preminted: bool)
        ensures
            *final(self) == (AiCharacterNFT { is_preminted, ..*old(self) }),
    {
        self.is_preminted = is_preminted;
    }

    pub fn set_minted(&mut self, is_minted: bool)
        ensures
            *final(self) == (AiCharacterNFT { is_minted, ..*old(self) }),
    {
        self.is_minted = is_minted;
    }

    /// Accepts a new personality for the character. The personality lives
    /// in its own record, so the character itself does not change.
    pub fn update_character_config(
        &mut self,
        new_config: CharacterConfigInput,
    ) -> (result: Result<(), AiNftError>)
        ensures
            result is Ok,
            *final(self) == *old(self),
    {
        Ok(())
    }
}

} // verus!
