use crate::authority::{
    address_bytes, derive_address, derived_address, is_address, program_address, seeds_view,
    Authority,
};
use crate::error::AiNftError;
use crate::events::NFTPreminted;
use crate::pubkey::Pubkey;
use crate::state::character_config::fixed_bytes;
use crate::state::{AINFTCollection, AiCharacterNFT, AiNft};
use crate::token::{Account, MintTo};
use vstd::prelude::*;
use vstd::string::StringSliceAdditionalSpecFns;
use vstd::utf8::encode_utf8;

verus! {

/// The records that minting a character ahead of sale touches.
#[derive(Clone, Debug, PartialEq, Eq)]
pub struct CreatePremintedNft {
    /// The registry.
    pub ai_nft: Account<AiNft>,
    /// The collection the character joins.
    pub collection: Account<AINFTCollection>,
    /// The slot the character is created in; it must be empty.
    pub ai_character: Account<Option<AiCharacterNFT>>,
    /// The bump of the slot's address.
    pub ai_character_bump: u8,
    /// The address of the character's mint, to be created.
    pub ai_character_mint: Pubkey,
    /// The collection's token account, which holds the character until it
    /// is bought.
    pub collection_token_account: Pubkey,
    /// The personality the character uses, if it has one.
    pub character_config: Option<Pubkey>,
    /// The wallet that signed; it must own the collection.
    pub authority: Pubkey,
}

/// What the ledger must carry out for a premint, and what is reported of
/// it.
#[derive(Debug)]
pub struct PremintReceipt {
    /// Mints the one token of the character into the collection's account.
    pub mint_to: MintTo,
    pub event: NFTPreminted,
}

/// The seed list from which the address of the character with the mint
/// `character_nft_mint` is derived: the tag `ainft`, the mint, the bump.
pub open spec fn character_seeds(character_nft_mint: Pubkey, bump: u8) -> Seq<Seq<u8>> {
    seq!["ainft".spec_bytes(), character_nft_mint.bytes@, seq![bump]]
}

impl CreatePremintedNft {
    /// The first condition on the records, in this order, that does not
    /// hold, if there is one.
    pub open spec fn link_error(&self, collection_name: Seq<char>) -> Option<AiNftError> {
        if self.collection.data.authority != self.authority || self.collection.data.name@
            != collection_name {
            Some(AiNftError::InvalidCollectionAuthority)
        } else if self.collection.data.preminting_finalized {
            Some(AiNftError::PremintingFinalized)
        } else if self.ai_character.data is Some {
            Some(AiNftError::InvalidAgentNftMint)
        } else {
            None
        }
    }

    /// Why the premint fails, if it does: a condition that does not hold, a
    /// collection that is not at the address `collection_address` that its
    /// seeds derive, or a slot that is not at the address
    /// `character_address` derived for the character's mint.
    pub open spec fn error(
        &self,
        collection_address: Option<Seq<u8>>,
        character_address: Option<Seq<u8>>,
        collection_name: Seq<char>,
    ) -> Option<AiNftError> {
        if self.link_error(collection_name) is Some {
            self.link_error(collection_name)
        } else if collection_address != Some(self.collection.key.bytes@) {
            Some(AiNftError::InvalidCollectionAuthority)
        } else if character_address != Some(self.ai_character.key.bytes@) {
            Some(AiNftError::InvalidAgentNftMint)
        } else {
            None
        }
    }

    /// What a successful premint leaves behind: the records `after` and the
    /// `receipt`.
    pub open spec fn preminted(
        &self,
        after: CreatePremintedNft,
        receipt: PremintReceipt,
        name: Seq<char>,
        price: u64,
        default_execution_client: Option<Pubkey>,
    ) -> bool {
        &&& receipt.mint_to.mint == self.ai_character_mint
        &&& receipt.mint_to.to == self.collection_token_account
        &&& receipt.mint_to.amount == 1
        &&& receipt.mint_to.authority.spec_account() == self.collection.key
        &&& receipt.mint_to.authority.spec_is_derived()
        &&& receipt.event == (NFTPreminted {
            collection: self.collection.key,
            nft_mint: self.ai_character_mint,
            authority: self.collection.data.authority,
            price,
        })
        &&& after.collection.key == self.collection.key
        &&& after.collection.data == (AINFTCollection {
            mint_count: if self.collection.data.mint_count == u64::MAX {
                u64::MAX
            } else {
                (self.collection.data.mint_count + 1) as u64
            },
            ..self.collection.data
        })
        &&& after.ai_character.key == self.ai_character.key
        &&& after.ai_character.data is Some
        &&& ({
            let character = after.ai_character.data->0;
            &&& character.app_ai_nft_mint == self.ai_nft.key
            &&& character.character_nft_mint == self.ai_character_mint
            &&& character.name@ == fixed_bytes(encode_utf8(name), 32)
            &&& match self.character_config {
                Some(key) => character.character_config_pubkey == key,
                None => character.character_config_pubkey.is_zero(),
            }
            &&& character.message_count == 0
            &&& character.total_processed == 0
            &&& character.compute_token_account == self.collection_token_account
            &&& match default_execution_client {
                Some(key) => character.execution_client == key,
                None => character.execution_client.is_zero(),
            }
            &&& character.bump@ == seq![self.ai_character_bump]
            &&& character.spec_seeds() == character_seeds(
                self.ai_character_mint,
                self.ai_character_bump,
            )
            &&& character.is_preminted
            &&& !character.is_minted
        })
        &&& after.ai_nft == self.ai_nft
        &&& after.ai_character_bump == self.ai_character_bump
        &&& after.ai_character_mint == self.ai_character_mint
        &&& after.collection_token_account == self.collection_token_account
        &&& after.character_config == self.character_config
        &&& after.authority == self.authority
    }
}

/// The address derived under `program_id` for the character with the mint
/// `character_nft_mint`, if the seeds derive one.
pub fn character_address(
    character_nft_mint: &Pubkey,
    bump: u8,
    program_id: &Pubkey,
) -> (address: Option<Pubkey>)
    ensures
        address_bytes(address) == program_address(
            character_seeds(*character_nft_mint, bump),
            program_id.bytes@,
        ),
{
    let bump_seed = [bump];
    let seeds = ["ainft".as_bytes(), character_nft_mint.bytes.as_slice(), bump_seed.as_slice()];
    assert(bump_seed@ =~= seq![bump]);
    assert(seeds_view(seeds@) =~= character_seeds(*character_nft_mint, bump));
    derive_address(seeds.as_slice(), program_id)
}

/// Mints a character into its collection ahead of sale, at `price`.
///
/// `collection_authority` is the capability derived from the collection's
/// seeds, which must control the collection's own address, and
/// `character_address` the address derived for the character's mint, at
/// which the slot offered must lie.
///
/// Only the collection's owner may do so, and only until preminting is
/// finalized. The collection counts one more character, and the character
/// is created, marked preminted and not yet bought, with the collection's
/// token account as its holder.
///
/// Any failure leaves every record as it was and orders nothing.
pub fn create_preminted_nft_handler(
    ctx: &mut CreatePremintedNft,
    collection_authority: Option<Authority>,
    character_address: Option<Pubkey>,
    name: String,
    uri: String,
    collection_name: String,
    price: u64,
    default_execution_client: Option<Pubkey>,
) -> (result: Result<PremintReceipt, AiNftError>)
    ensures
        match result {
            Err(e) => old(ctx).error(
                derived_address(collection_authority),
                address_bytes(character_address),
                collection_name@,
            ) == Some(e) && *final(ctx) == *old(ctx),
            Ok(receipt) => {
                &&& old(ctx).error(
                    derived_address(collection_authority),
                    address_bytes(character_address),
                    collection_name@,
                ) is None
                &&& old(ctx).preminted(
                    *final(ctx),
                    receipt,
                    name@,
                    price,
                    default_execution_client,
                )
                &&& Some(receipt.mint_to.authority) == collection_authority
            },
        },
{
    if ctx.collection.data.authority != ctx.authority || ctx.collection.data.name
        != collection_name {
        return Err(AiNftError::InvalidCollectionAuthority);
    }
    if ctx.collection.data.preminting_finalized {
        return Err(AiNftError::PremintingFinalized);
    }
    if ctx.ai_character.data.is_some() {
        return Err(AiNftError::InvalidAgentNftMint);
    }
    let collection_key = ctx.collection.key;
    let collection_authority = match collection_authority {
        Some(a) => a,
        None => {
            return Err(AiNftError::InvalidCollectionAuthority);
        },
    };
    proof {
        Pubkey::lemma_same_bytes(collection_authority.spec_account(), collection_key);
    }
    if !collection_authority.controls_by_derivation(&collection_key) {
        return Err(AiNftError::InvalidCollectionAuthority);
    }
    if !is_address(&character_address, &ctx.ai_character.key) {
        return Err(AiNftError::InvalidAgentNftMint);
    }
    let character_config_pubkey = match ctx.character_config {
        Some(key) => key,
        None => Pubkey::default(),
    };
    let mut character = AiCharacterNFT::try_new(
        &ctx.ai_nft.key,
        &ctx.ai_character_mint,
        name.as_str(),
        default_execution_client,
        Some(ctx.collection_token_account),
        &character_config_pubkey,
        ctx.ai_character_bump,
    );
    character.set_preminted(true);
    character.set_minted(false);
    let mint_to = MintTo {
        mint: ctx.ai_character_mint,
        to: ctx.collection_token_account,
        authority: collection_authority,
        amount: 1,
    };
    let event = NFTPreminted {
        collection: collection_key,
        nft_mint: ctx.ai_character_mint,
        authority: ctx.collection.data.authority,
        price,
    };
    ctx.collection.data.increment_mint_count();
    ctx.ai_character.data = Some(character);
    Ok(PremintReceipt { mint_to, event })
}

} // verus!
