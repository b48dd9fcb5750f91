use crate::authority::{address_bytes, derive_address, is_address, program_address, seeds_view};
use crate::error::AiNftError;
use crate::pubkey::Pubkey;
use crate::state::character_config::{fixed_bytes, fixed_rows, rows_view, texts_bytes};
use crate::state::{CharacterConfig, CharacterConfigInput, StyleConfig};
use crate::token::Account;
use vstd::prelude::*;
use vstd::string::StringSliceAdditionalSpecFns;
use vstd::utf8::encode_utf8;

verus! {

/// A personality record was created.
#[derive(Clone, Copy, Debug, PartialEq, Eq)]
pub struct CharacterConfigCreated {
    pub character_config: Pubkey,
    pub authority: Pubkey,
}

/// The records that creating a personality touches.
#[derive(Clone, Debug, PartialEq, Eq)]
pub struct CreateCharacterConfig {
    /// The slot the personality is created in; it must be empty.
    pub character_config: Account<Option<CharacterConfig>>,
    /// The bump of the slot's address.
    pub character_config_bump: u8,
    /// The wallet that signed and will own the personality.
    pub authority: Pubkey,
}

/// The seed list from which the address of the personality that
/// `authority` created under the name `id` is derived: the tag
/// `character_config`, the owner, the name, the bump.
pub open spec fn character_config_seeds(
    authority: Pubkey,
    id: Seq<char>,
    bump: u8,
) -> Seq<Seq<u8>> {
    seq!["character_config".spec_bytes(), authority.bytes@, encode_utf8(id), seq![bump]]
}

/// The address derived under `program_id` for the personality that
/// `authority` created under the name `id`, if the seeds derive one.
pub fn character_config_address(
    authority: &Pubkey,
    id: &str,
    bump: u8,
    program_id: &Pubkey,
) -> (address: Option<Pubkey>)
    ensures
        address_bytes(address) == program_address(
            character_config_seeds(*authority, id@, bump),
            program_id.bytes@,
        ),
{
    let bump_seed = [bump];
    let seeds = [
        "character_config".as_bytes(),
        authority.bytes.as_slice(),
        id.as_bytes(),
        bump_seed.as_slice(),
    ];
    assert(bump_seed@ =~= seq![bump]);
    assert(seeds_view(seeds@) =~= character_config_seeds(*authority, id@, bump));
    derive_address(seeds.as_slice(), program_id)
}

impl CreateCharacterConfig {
    /// Why the personality is not created, if it is not: the slot is taken,
    /// or is not at the address `config_address` derived for the signer and
    /// the name (both `InvalidConfigField`).
    pub open spec fn error(&self, config_address: Option<Seq<u8>>) -> Option<AiNftError> {
        if self.character_config.data is Some || config_address != Some(
            self.character_config.key.bytes@,
        ) {
            Some(AiNftError::InvalidConfigField)
        } else {
            None
        }
    }

    /// What a successful creation from `config_input` leaves behind: the
    /// records `after` and the `event`.
    pub open spec fn created(
        &self,
        after: CreateCharacterConfig,
        event: CharacterConfigCreated,
        config_input: CharacterConfigInput,
    ) -> bool {
        &&& event == (CharacterConfigCreated {
            character_config: self.character_config.key,
            authority: self.authority,
        })
        &&& after.character_config.key == self.character_config.key
        &&& after.character_config_bump == self.character_config_bump
        &&& after.authority == self.authority
        &&& after.character_config.data is Some
        &&& ({
            let config = after.character_config.data->0;
            &&& config.name@ == fixed_bytes(encode_utf8(config_input.name@), 32)
            &&& rows_view(config.clients) == fixed_rows(texts_bytes(config_input.clients@), 20, 5)
            &&& config.model_provider@ == fixed_bytes(
                encode_utf8(config_input.model_provider@),
                20,
            )
            &&& config.settings.voice.model == config_input.settings.voice.model
            &&& rows_view(config.bio) == fixed_rows(texts_bytes(config_input.bio@), 32, 5)
            &&& rows_view(config.lore) == fixed_rows(texts_bytes(config_input.lore@), 32, 5)
            &&& rows_view(config.knowledge) == fixed_rows(
                texts_bytes(config_input.knowledge@),
                32,
                5,
            )
            &&& rows_view(config.topics) == fixed_rows(texts_bytes(config_input.topics@), 32, 5)
            &&& config.style == (StyleConfig {
                all: config_input.style.all,
                chat: config_input.style.chat,
                post: config_input.style.post,
            })
            &&& rows_view(config.adjectives) == fixed_rows(
                texts_bytes(config_input.adjectives@),
                32,
                5,
            )
            &&& config.bump == self.character_config_bump
            &&& config.authority == self.authority
        })
    }
}

/// Creates a personality record owned by the signer, from the texts handed
/// in: each cut or padded to its field, each list cut to five entries.
///
/// `config_address` is the address derived for the signer and the name of
/// the personality; the slot offered must lie there. Any failure leaves the
/// slot as it was.
pub fn create_character_config_handler(
    ctx: &mut CreateCharacterConfig,
    config_address: Option<Pubkey>,
    config_input: CharacterConfigInput,
) -> (result: Result<CharacterConfigCreated, AiNftError>)
    ensures
        match result {
            Err(e) => old(ctx).error(address_bytes(config_address)) == Some(e) && *final(ctx)
                == *old(ctx),
            Ok(event) => {
                &&& old(ctx).error(address_bytes(config_address)) is None
                &&& old(ctx).created(*final(ctx), event, config_input)
            },
        },
{
    if ctx.character_config.data.is_some() {
        return Err(AiNftError::InvalidConfigField);
    }
    if !is_address(&config_address, &ctx.character_config.key) {
        return Err(AiNftError::InvalidConfigField);
    }
    ctx.character_config.data = Some(
        CharacterConfig::from_input(config_input, &ctx.authority, ctx.character_config_bump),
    );
    Ok(
        CharacterConfigCreated {
            character_config: ctx.character_config.key,
            authority: ctx.authority,
        },
    )
}

} // verus!
