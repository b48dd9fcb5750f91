use crate::authority::{derived_address, Authority};
use crate::error::AiNftError;
use crate::events::CollectionCreated;
use crate::pubkey::Pubkey;
use crate::state::AINFTCollection;
use crate::token::{Account, Mint};
use vstd::prelude::*;
use vstd::string::StringSliceAdditionalSpecFns;
use vstd::utf8::encode_utf8;

verus! {

/// The records that creating a collection touches.
#[derive(Clone, Debug, PartialEq, Eq)]
pub struct CreateCollection {
    /// The slot the collection is created in; it must be empty.
    pub collection: Account<Option<AINFTCollection>>,
    /// The bump of the slot's address.
    pub collection_bump: u8,
    /// The address of the collection's mint, to be created.
    pub collection_mint: Pubkey,
    /// The wallet that signed and will own the collection.
    pub authority: Pubkey,
}

/// What the ledger must set up for a new collection, and what is reported
/// of it.
#[derive(Debug)]
pub struct CollectionReceipt {
    /// The mint to create: indivisible, nothing minted yet, and only the
    /// collection itself may mint.
    pub collection_mint: Mint,
    /// The collection's derived authority, under which it is described.
    pub authority: Authority,
    pub event: CollectionCreated,
}

/// The seed list from which the address of the collection that `authority`
/// owns under `name` is derived: the tag `collection`, the owner, the name,
/// the bump.
pub open spec fn collection_seeds(authority: Pubkey, name: Seq<char>, bump: u8) -> Seq<Seq<u8>> {
    seq!["collection".spec_bytes(), authority.bytes@, encode_utf8(name), seq![bump]]
}

impl CreateCollection {
    /// Why the collection is not created, if it is not: the slot is taken,
    /// or is not at the address `collection_address` derived for the signer
    /// and the name (both `InvalidCollectionAuthority`).
    pub open spec fn error(&self, collection_address: Option<Seq<u8>>) -> Option<AiNftError> {
        if self.collection.data is Some || collection_address != Some(self.collection.key.bytes@) {
            Some(AiNftError::InvalidCollectionAuthority)
        } else {
            None
        }
    }

    /// What a successful creation leaves behind: the records `after` and
    /// the `receipt`.
    pub open spec fn created(
        &self,
        after: CreateCollection,
        receipt: CollectionReceipt,
        name: String,
        uri: String,
        description: String,
        royalty_basis_points: u16,
        mint_price: u64,
        start_mint_date: i64,
        end_mint_date: i64,
    ) -> bool {
        &&& receipt.collection_mint == (Mint {
            key: self.collection_mint,
            mint_authority: Some(self.collection.key),
            supply: 0,
            decimals: 0,
        })
        &&& receipt.authority.spec_account() == self.collection.key
        &&& receipt.authority.spec_is_derived()
        &&& receipt.event == (CollectionCreated {
            collection: self.collection.key,
            authority: self.authority,
        })
        &&& after.collection.key == self.collection.key
        &&& after.collection_bump == self.collection_bump
        &&& after.collection_mint == self.collection_mint
        &&& after.authority == self.authority
        &&& after.collection.data is Some
        &&& ({
            let collection = after.collection.data->0;
            &&& collection.authority == self.authority
            &&& collection.mint == self.collection_mint
            &&& collection.name == name
            &&& collection.uri == uri
            &&& collection.description == description
            &&& collection.royalty_basis_points == royalty_basis_points
            &&& collection.mint_count == 0
            &&& collection.mint_price == mint_price
            &&& collection.start_mint_date == start_mint_date
            &&& collection.end_mint_date == end_mint_date
            &&& !collection.preminting_finalized
            &&& collection.whitelist@.len() == 0
            &&& collection.bump@ == seq![self.collection_bump]
            &&& collection.spec_seeds() == collection_seeds(
                self.authority,
                name@,
                self.collection_bump,
            )
        })
    }
}

/// Creates a collection owned by the signer: nothing minted, preminting
/// open, no whitelist.
///
/// `collection_authority` is the capability derived from the tag
/// `collection`, the signer, the name and the bump; it must control the
/// address of the slot offered. Any failure leaves the slot as it was.
pub fn create_collection_handler(
    ctx: &mut CreateCollection,
    collection_authority: Option<Authority>,
    name: String,
    uri: String,
    description: String,
    royalty_basis_points: u16,
    mint_price: u64,
    start_mint_date: i64,
    end_mint_date: i64,
) -> (result: Result<CollectionReceipt, AiNftError>)
    ensures
        match result {
            Err(e) => {
                &&& old(ctx).error(derived_address(collection_authority)) == Some(e)
                &&& *final(ctx) == *old(ctx)
            },
            Ok(receipt) => {
                &&& old(ctx).error(derived_address(collection_authority)) is None
                &&& old(ctx).created(
                    *final(ctx),
                    receipt,
                    name,
                    uri,
                    description,
                    royalty_basis_points,
                    mint_price,
                    start_mint_date,
                    end_mint_date,
                )
                &&& Some(receipt.authority) == collection_authority
            },
        },
{
    if ctx.collection.data.is_some() {
        return Err(AiNftError::InvalidCollectionAuthority);
    }
    let collection_key = ctx.collection.key;
    let collection_authority = match collection_authority {
        Some(a) => a,
        None => {
            return Err(AiNftError::InvalidCollectionAuthority);
        },
    };
    proof {
        Pubkey::lemma_same_bytes(collection_authority.spec_account(), collection_key);
    }
    if !collection_authority.controls_by_derivation(&collection_key) {
        return Err(AiNftError::InvalidCollectionAuthority);
    }
    let collection = AINFTCollection::try_new(
        ctx.authority,
        ctx.collection_mint,
        name,
        uri,
        description,
        royalty_basis_points,
        mint_price,
        start_mint_date,
        end_mint_date,
        ctx.collection_bump,
    );
    ctx.collection.data = Some(collection);
    Ok(
        CollectionReceipt {
            collection_mint: Mint {
                key: ctx.collection_mint,
                mint_authority: Some(collection_key),
                supply: 0,
                decimals: 0,
            },
            authority: collection_authority,
            event: CollectionCreated { collection: collection_key, authority: ctx.authority },
        },
    )
}

} // verus!
