use crate::authority::{address_bytes, is_address};
use crate::error::AiNftError;
use crate::pubkey::Pubkey;
use crate::state::character_config::{fixed_bytes, replaced_rows, rows_view, texts_bytes};
use crate::state::{CharacterConfig, Settings, StyleConfig, StyleConfigInput, VoiceSettings};
use crate::token::Account;
use vstd::prelude::*;
use vstd::utf8::encode_utf8;

verus! {

/// The records that a change of one field of a personality touches.
#[derive(Clone, Debug, PartialEq, Eq)]
pub struct UpdateCharacterConfigField {
    /// The personality to change.
    pub character_config: Account<CharacterConfig>,
    /// The wallet that signed; the personality must be the one derived for
    /// it.
    pub authority: Pubkey,
}

impl UpdateCharacterConfigField {
    /// Why the change is refused, if it is: the personality is not at the
    /// address `config_address` derived for the signer and the name, so it
    /// is not the signer's to change.
    pub open spec fn error(&self, config_address: Option<Seq<u8>>) -> Option<AiNftError> {
        if config_address != Some(self.character_config.key.bytes@) {
            Some(AiNftError::UnauthorizedConfigUpdate)
        } else {
            None
        }
    }

    /// The records with the personality replaced by `config`.
    pub open spec fn with_config(&self, config: CharacterConfig) -> UpdateCharacterConfigField {
        UpdateCharacterConfigField {
            character_config: Account { key: self.character_config.key, data: config },
            ..*self
        }
    }

    fn check(&self, config_address: &Option<Pubkey>) -> (result: Result<(), AiNftError>)
        ensures
            match result {
                Ok(()) => self.error(address_bytes(*config_address)) is None,
                Err(e) => self.error(address_bytes(*config_address)) == Some(e),
            },
    {
        if !is_address(config_address, &self.character_config.key) {
            return Err(AiNftError::UnauthorizedConfigUpdate);
        }
        Ok(())
    }
}

impl UpdateCharacterConfigField {
    /// What a successful change to `name` leaves behind: the records
    /// `after`.
    pub open spec fn name_set(&self, after: UpdateCharacterConfigField, name: String) -> bool {
        let before = self.character_config.data;
        let changed = after.character_config.data;
        &&& after == self.with_config(changed)
        &&& changed.name@ == fixed_bytes(encode_utf8(name@), 32)
        &&& changed == (CharacterConfig { name: changed.name, ..before })
    }
}

/// Replaces the name of a personality, cut or padded to 32 bytes.
///
/// `config_address` is the address derived for the signer and the name of
/// the personality; the personality must lie there. A refusal changes
/// nothing.
pub fn update_character_name_handler(
    ctx: &mut UpdateCharacterConfigField,
    config_address: Option<Pubkey>,
    name: String,
) -> (result: Result<(), AiNftError>)
    ensures
        match result {
            Err(e) => old(ctx).error(address_bytes(config_address)) == Some(e) && *final(ctx)
                == *old(ctx),
            Ok(()) => {
                &&& old(ctx).error(address_bytes(config_address)) is None
                &&& old(ctx).name_set(*final(ctx), name)
            },
        },
{
    match ctx.check(&config_address) {
        Ok(()) => {},
        Err(e) => {
            return Err(e);
        },
    }
    ctx.character_config.data.update_name(name);
    Ok(())
}

impl UpdateCharacterConfigField {
    /// What a successful change to `clients` leaves behind: the records
    /// `after`.
    pub open spec fn clients_set(
        &self,
        after: UpdateCharacterConfigField,
        clients: Vec<String>,
    ) -> bool {
        let before = self.character_config.data;
        let changed = after.character_config.data;
        &&& after == self.with_config(changed)
        &&& rows_view(changed.clients) == replaced_rows(
            rows_view(before.clients),
            texts_bytes(clients@),
            20,
        )
        &&& changed == (CharacterConfig { clients: changed.clients, ..before })
    }
}

/// Overwrites the leading clients of a personality, each cut or padded to 20
/// bytes; entries beyond the fifth are dropped.
///
/// `config_address` is the address derived for the signer and the name of
/// the personality; the personality must lie there. A refusal changes
/// nothing.
pub fn update_character_clients_handler(
    ctx: &mut UpdateCharacterConfigField,
    config_address: Option<Pubkey>,
    clients: Vec<String>,
) -> (result: Result<(), AiNftError>)
    ensures
        match result {
            Err(e) => old(ctx).error(address_bytes(config_address)) == Some(e) && *final(ctx)
                == *old(ctx),
            Ok(()) => {
                &&& old(ctx).error(address_bytes(config_address)) is None
                &&& old(ctx).clients_set(*final(ctx), clients)
            },
        },
{
    match ctx.check(&config_address) {
        Ok(()) => {},
        Err(e) => {
            return Err(e);
        },
    }
    ctx.character_config.data.update_clients(clients);
    Ok(())
}

impl UpdateCharacterConfigField {
    /// What a successful change to `provider` leaves behind: the records
    /// `after`.
    pub open spec fn model_provider_set(
        &self,
        after: UpdateCharacterConfigField,
        provider: String,
    ) -> bool {
        let before = self.character_config.data;
        let changed = after.character_config.data;
        &&& after == self.with_config(changed)
        &&& changed.model_provider@ == fixed_bytes(encode_utf8(provider@), 20)
        &&& changed == (CharacterConfig { model_provider: changed.model_provider, ..before })
    }
}

/// Replaces the model provider of a personality, cut or padded to 20 bytes.
///
/// `config_address` is the address derived for the signer and the name of
/// the personality; the personality must lie there. A refusal changes
/// nothing.
pub fn update_character_model_provider_handler(
    ctx: &mut UpdateCharacterConfigField,
    config_address: Option<Pubkey>,
    provider: String,
) -> (result: Result<(), AiNftError>)
    ensures
        match result {
            Err(e) => old(ctx).error(address_bytes(config_address)) == Some(e) && *final(ctx)
                == *old(ctx),
            Ok(()) => {
                &&& old(ctx).error(address_bytes(config_address)) is None
                &&& old(ctx).model_provider_set(*final(ctx), provider)
            },
        },
{
    match ctx.check(&config_address) {
        Ok(()) => {},
        Err(e) => {
            return Err(e);
        },
    }
    ctx.character_config.data.update_model_provider(provider);
    Ok(())
}

impl UpdateCharacterConfigField {
    /// What a successful change to `model` leaves behind: the records
    /// `after`.
    pub open spec fn voice_set(&self, after: UpdateCharacterConfigField, model: [u8; 32]) -> bool {
        let before = self.character_config.data;
        let changed = after.character_config.data;
        &&& after == self.with_config(changed)
        &&& changed == (CharacterConfig {
            settings: Settings { voice: VoiceSettings { model } },
            ..before
        })
    }
}

/// Replaces the voice model of a personality.
///
/// `config_address` is the address derived for the signer and the name of
/// the personality; the personality must lie there. A refusal changes
/// nothing.
pub fn update_character_voice_settings_handler(
    ctx: &mut UpdateCharacterConfigField,
    config_address: Option<Pubkey>,
    model: [u8; 32],
) -> (result: Result<(), AiNftError>)
    ensures
        match result {
            Err(e) => old(ctx).error(address_bytes(config_address)) == Some(e) && *final(ctx)
                == *old(ctx),
            Ok(()) => {
                &&& old(ctx).error(address_bytes(config_address)) is None
                &&& old(ctx).voice_set(*final(ctx), model)
            },
        },
{
    match ctx.check(&config_address) {
        Ok(()) => {},
        Err(e) => {
            return Err(e);
        },
    }
    ctx.character_config.data.update_voice_settings(model);
    Ok(())
}

impl UpdateCharacterConfigField {
    /// What a successful change to `bio` leaves behind: the records
    /// `after`.
    pub open spec fn bio_set(&self, after: UpdateCharacterConfigField, bio: Vec<String>) -> bool {
        let before = self.character_config.data;
        let changed = after.character_config.data;
        &&& after == self.with_config(changed)
        &&& rows_view(changed.bio) == replaced_rows(
            rows_view(before.bio),
            texts_bytes(bio@),
            32,
        )
        &&& changed == (CharacterConfig { bio: changed.bio, ..before })
    }
}

/// Overwrites the leading entries of the biography of a personality, each cut or
/// padded to 32 bytes; entries beyond the fifth are dropped.
///
/// `config_address` is the address derived for the signer and the name of
/// the personality; the personality must lie there. A refusal changes
/// nothing.
pub fn update_character_bio_handler(
    ctx: &mut UpdateCharacterConfigField,
    config_address: Option<Pubkey>,
    bio: Vec<String>,
) -> (result: Result<(), AiNftError>)
    ensures
        match result {
            Err(e) => old(ctx).error(address_bytes(config_address)) == Some(e) && *final(ctx)
                == *old(ctx),
            Ok(()) => {
                &&& old(ctx).error(address_bytes(config_address)) is None
                &&& old(ctx).bio_set(*final(ctx), bio)
            },
        },
{
    match ctx.check(&config_address) {
        Ok(()) => {},
        Err(e) => {
            return Err(e);
        },
    }
    ctx.character_config.data.update_bio(bio);
    Ok(())
}

impl UpdateCharacterConfigField {
    /// What a successful change to `lore` leaves behind: the records
    /// `after`.
    pub open spec fn lore_set(&self, after: UpdateCharacterConfigField, lore: Vec<String>) -> bool {
        let before = self.character_config.data;
        let changed = after.character_config.data;
        &&& after == self.with_config(changed)
        &&& rows_view(changed.lore) == replaced_rows(
            rows_view(before.lore),
            texts_bytes(lore@),
            32,
        )
        &&& changed == (CharacterConfig { lore: changed.lore, ..before })
    }
}

/// Overwrites the leading entries of the lore of a personality, each cut or
/// padded to 32 bytes; entries beyond the fifth are dropped.
///
/// `config_address` is the address derived for the signer and the name of
/// the personality; the personality must lie there. A refusal changes
/// nothing.
pub fn update_character_lore_handler(
    ctx: &mut UpdateCharacterConfigField,
    config_address: Option<Pubkey>,
    lore: Vec<String>,
) -> (result: Result<(), AiNftError>)
    ensures
        match result {
            Err(e) => old(ctx).error(address_bytes(config_address)) == Some(e) && *final(ctx)
                == *old(ctx),
            Ok(()) => {
                &&& old(ctx).error(address_bytes(config_address)) is None
                &&& old(ctx).lore_set(*final(ctx), lore)
            },
        },
{
    match ctx.check(&config_address) {
        Ok(()) => {},
        Err(e) => {
            return Err(e);
        },
    }
    ctx.character_config.data.update_lore(lore);
    Ok(())
}

impl UpdateCharacterConfigField {
    /// What a successful change to `knowledge` leaves behind: the records
    /// `after`.
    pub open spec fn knowledge_set(
        &self,
        after: UpdateCharacterConfigField,
        knowledge: Vec<String>,
    ) -> bool {
        let before = self.character_config.data;
        let changed = after.character_config.data;
        &&& after == self.with_config(changed)
        &&& rows_view(changed.knowledge) == replaced_rows(
            rows_view(before.knowledge),
            texts_bytes(knowledge@),
            32,
        )
        &&& changed == (CharacterConfig { knowledge: changed.knowledge, ..before })
    }
}

/// Overwrites the leading entries of the knowledge of a personality, each cut or
/// padded to 32 bytes; entries beyond the fifth are dropped.
///
/// `config_address` is the address derived for the signer and the name of
/// the personality; the personality must lie there. A refusal changes
/// nothing.
pub fn update_character_knowledge_handler(
    ctx: &mut UpdateCharacterConfigField,
    config_address: Option<Pubkey>,
    knowledge: Vec<String>,
) -> (result: Result<(), AiNftError>)
    ensures
        match result {
            Err(e) => old(ctx).error(address_bytes(config_address)) == Some(e) && *final(ctx)
                == *old(ctx),
            Ok(()) => {
                &&& old(ctx).error(address_bytes(config_address)) is None
                &&& old(ctx).knowledge_set(*final(ctx), knowledge)
            },
        },
{
    match ctx.check(&config_address) {
        Ok(()) => {},
        Err(e) => {
            return Err(e);
        },
    }
    ctx.character_config.data.update_knowledge(knowledge);
    Ok(())
}

impl UpdateCharacterConfigField {
    /// What a successful change to `topics` leaves behind: the records
    /// `after`.
    pub open spec fn topics_set(
        &self,
        after: UpdateCharacterConfigField,
        topics: Vec<String>,
    ) -> bool {
        let before = self.character_config.data;
        let changed = after.character_config.data;
        &&& after == self.with_config(changed)
        &&& rows_view(changed.topics) == replaced_rows(
            rows_view(before.topics),
            texts_bytes(topics@),
            32,
        )
        &&& changed == (CharacterConfig { topics: changed.topics, ..before })
    }
}

/// Overwrites the leading entries of the topics of a personality, each cut or
/// padded to 32 bytes; entries beyond the fifth are dropped.
///
/// `config_address` is the address derived for the signer and the name of
/// the personality; the personality must lie there. A refusal changes
/// nothing.
pub fn update_character_topics_handler(
    ctx: &mut UpdateCharacterConfigField,
    config_address: Option<Pubkey>,
    topics: Vec<String>,
) -> (result: Result<(), AiNftError>)
    ensures
        match result {
            Err(e) => old(ctx).error(address_bytes(config_address)) == Some(e) && *final(ctx)
                == *old(ctx),
            Ok(()) => {
                &&& old(ctx).error(address_bytes(config_address)) is None
                &&& old(ctx).topics_set(*final(ctx), topics)
            },
        },
{
    match ctx.check(&config_address) {
        Ok(()) => {},
        Err(e) => {
            return Err(e);
        },
    }
    ctx.character_config.data.update_topics(topics);
    Ok(())
}

impl UpdateCharacterConfigField {
    /// What a successful change to `style` leaves behind: the records
    /// `after`.
    pub open spec fn style_set(
        &self,
        after: UpdateCharacterConfigField,
        style: StyleConfigInput,
    ) -> bool {
        let before = self.character_config.data;
        let changed = after.character_config.data;
        &&& after == self.with_config(changed)
        &&& changed == (CharacterConfig {
            style: StyleConfig { all: style.all, chat: style.chat, post: style.post },
            ..before
        })
    }
}

/// Replaces the three style tables of a personality.
///
/// `config_address` is the address derived for the signer and the name of
/// the personality; the personality must lie there. A refusal changes
/// nothing.
pub fn update_character_style_handler(
    ctx: &mut UpdateCharacterConfigField,
    config_address: Option<Pubkey>,
    style: StyleConfigInput,
) -> (result: Result<(), AiNftError>)
    ensures
        match result {
            Err(e) => old(ctx).error(address_bytes(config_address)) == Some(e) && *final(ctx)
                == *old(ctx),
            Ok(()) => {
                &&& old(ctx).error(address_bytes(config_address)) is None
                &&& old(ctx).style_set(*final(ctx), style)
            },
        },
{
    match ctx.check(&config_address) {
        Ok(()) => {},
        Err(e) => {
            return Err(e);
        },
    }
    ctx.character_config.data.update_style(style);
    Ok(())
}

impl UpdateCharacterConfigField {
    /// What a successful change to `adjectives` leaves behind: the records
    /// `after`.
    pub open spec fn adjectives_set(
        &self,
        after: UpdateCharacterConfigField,
        adjectives: Vec<String>,
    ) -> bool {
        let before = self.character_config.data;
        let changed = after.character_config.data;
        &&& after == self.with_config(changed)
        &&& rows_view(changed.adjectives) == replaced_rows(
            rows_view(before.adjectives),
            texts_bytes(adjectives@),
            32,
        )
        &&& changed == (CharacterConfig { adjectives: changed.adjectives, ..before })
    }
}

/// Overwrites the leading adjectives of a personality, each cut or padded to
/// 32 bytes; entries beyond the fifth are dropped.
///
/// `config_address` is the address derived for the signer and the name of
/// the personality; the personality must lie there. A refusal changes
/// nothing.
pub fn update_character_adjectives_handler(
    ctx: &mut UpdateCharacterConfigField,
    config_address: Option<Pubkey>,
    adjectives: Vec<String>,
) -> (result: Result<(), AiNftError>)
    ensures
        match result {
            Err(e) => old(ctx).error(address_bytes(config_address)) == Some(e) && *final(ctx)
                == *old(ctx),
            Ok(()) => {
                &&& old(ctx).error(address_bytes(config_address)) is None
                &&& old(ctx).adjectives_set(*final(ctx), adjectives)
            },
        },
{
    match ctx.check(&config_address) {
        Ok(()) => {},
        Err(e) => {
            return Err(e);
        },
    }
    ctx.character_config.data.update_adjectives(adjectives);
    Ok(())
}

impl UpdateCharacterConfigField {
    /// What a successful change to `style_all` leaves behind: the records
    /// `after`.
    pub open spec fn style_all_set(
        &self,
        after: UpdateCharacterConfigField,
        style_all: [[u8; 32]; 5],
    ) -> bool {
        let before = self.character_config.data;
        let changed = after.character_config.data;
        &&& after == self.with_config(changed)
        &&& changed == (CharacterConfig {
            style: StyleConfig { all: style_all, ..before.style },
            ..before
        })
    }
}

/// Replaces the general style table of a personality.
///
/// `config_address` is the address derived for the signer and the name of
/// the personality; the personality must lie there. A refusal changes
/// nothing.
pub fn update_character_style_all_handler(
    ctx: &mut UpdateCharacterConfigField,
    config_address: Option<Pubkey>,
    style_all: [[u8; 32]; 5],
) -> (result: Result<(), AiNftError>)
    ensures
        match result {
            Err(e) => old(ctx).error(address_bytes(config_address)) == Some(e) && *final(ctx)
                == *old(ctx),
            Ok(()) => {
                &&& old(ctx).error(address_bytes(config_address)) is None
                &&& old(ctx).style_all_set(*final(ctx), style_all)
            },
        },
{
    match ctx.check(&config_address) {
        Ok(()) => {},
        Err(e) => {
            return Err(e);
        },
    }
    ctx.character_config.data.update_style_all(style_all);
    Ok(())
}

impl UpdateCharacterConfigField {
    /// What a successful change to `style_chat` leaves behind: the records
    /// `after`.
    pub open spec fn style_chat_set(
        &self,
        after: UpdateCharacterConfigField,
        style_chat: [[u8; 32]; 5],
    ) -> bool {
        let before = self.character_config.data;
        let changed = after.character_config.data;
        &&& after == self.with_config(changed)
        &&& changed == (CharacterConfig {
            style: StyleConfig { chat: style_chat, ..before.style },
            ..before
        })
    }
}

/// Replaces the chat style table of a personality.
///
/// `config_address` is the address derived for the signer and the name of
/// the personality; the personality must lie there. A refusal changes
/// nothing.
pub fn update_character_style_chat_handler(
    ctx: &mut UpdateCharacterConfigField,
    config_address: Option<Pubkey>,
    style_chat: [[u8; 32]; 5],
) -> (result: Result<(), AiNftError>)
    ensures
        match result {
            Err(e) => old(ctx).error(address_bytes(config_address)) == Some(e) && *final(ctx)
                == *old(ctx),
            Ok(()) => {
                &&& old(ctx).error(address_bytes(config_address)) is None
                &&& old(ctx).style_chat_set(*final(ctx), style_chat)
            },
        },
{
    match ctx.check(&config_address) {
        Ok(()) => {},
        Err(e) => {
            return Err(e);
        },
    }
    ctx.character_config.data.update_style_chat(style_chat);
    Ok(())
}

impl UpdateCharacterConfigField {
    /// What a successful change to `style_post` leaves behind: the records
    /// `after`.
    pub open spec fn style_post_set(
        &self,
        after: UpdateCharacterConfigField,
        style_post: [[u8; 32]; 5],
    ) -> bool {
        let before = self.character_config.data;
        let changed = after.character_config.data;
        &&& after == self.with_config(changed)
        &&& changed == (CharacterConfig {
            style: StyleConfig { post: style_post, ..before.style },
            ..before
        })
    }
}

/// Replaces the post style table of a personality.
///
/// `config_address` is the address derived for the signer and the name of
/// the personality; the personality must lie there. A refusal changes
/// nothing.
pub fn update_character_style_post_handler(
    ctx: &mut UpdateCharacterConfigField,
    config_address: Option<Pubkey>,
    style_post: [[u8; 32]; 5],
) -> (result: Result<(), AiNftError>)
    ensures
        match result {
            Err(e) => old(ctx).error(address_bytes(config_address)) == Some(e) && *final(ctx)
                == *old(ctx),
            Ok(()) => {
                &&& old(ctx).error(address_bytes(config_address)) is None
                &&& old(ctx).style_post_set(*final(ctx), style_post)
            },
        },
{
    match ctx.check(&config_address) {
        Ok(()) => {},
        Err(e) => {
            return Err(e);
        },
    }
    ctx.character_config.data.update_style_post(style_post);
    Ok(())
}

} // verus!
