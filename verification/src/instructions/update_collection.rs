use crate::error::AiNftError;
use crate::events::CollectionUpdated;
use crate::pubkey::Pubkey;
use crate::state::AINFTCollection;
use crate::token::Account;
use vstd::prelude::*;

verus! {

/// The records that a change of a collection's terms touches.
#[derive(Clone, Debug, PartialEq, Eq)]
pub struct UpdateCollection {
    /// The collection to change.
    pub collection: Account<AINFTCollection>,
    /// The wallet that signed; it must own the collection.
    pub authority: Pubkey,
}

/// The value a setting takes: the new one where one is given, else the old.
pub open spec fn chosen<T>(new: Option<T>, old: T) -> T {
    match new {
        Some(value) => value,
        None => old,
    }
}

impl UpdateCollection {
    /// Why the owner's change of a collection is refused, if it is: a wallet
    /// that does not own it, or preminting that was finalized.
    pub open spec fn refusal(&self) -> Option<AiNftError> {
        if self.collection.data.authority != self.authority {
            Some(AiNftError::InvalidCollectionAuthority)
        } else if self.collection.data.preminting_finalized {
            Some(AiNftError::PremintingFinalized)
        } else {
            None
        }
    }

    /// Whether new dates are given that do not put the start before a set
    /// end.
    pub open spec fn dates_clash(&self, new_start: Option<i64>, new_end: Option<i64>) -> bool {
        let start = chosen(new_start, self.collection.data.start_mint_date);
        let end = chosen(new_end, self.collection.data.end_mint_date);
        (new_start is Some || new_end is Some) && end > 0 && start >= end
    }
}

/// Changes the terms of a collection: of each setting, the new value where
/// one is given.
///
/// Only the owner may do so, and only until preminting is finalized. Where
/// a date is given, the start must lie before the end unless the end is
/// unset (zero or less), else the change is refused with
/// `InvalidMintDates`. A refusal changes nothing.
pub fn update_collection_handler(
    ctx: &mut UpdateCollection,
    _collection_name: String,
    new_name: Option<String>,
    new_uri: Option<String>,
    new_description: Option<String>,
    new_mint_price: Option<u64>,
    new_start_mint_date: Option<i64>,
    new_end_mint_date: Option<i64>,
) -> (result: Result<CollectionUpdated, AiNftError>)
    ensures
        old(ctx).refusal() is Some ==> result == Err::<CollectionUpdated, AiNftError>(
            old(ctx).refusal()->0,
        ),
        old(ctx).refusal() is None && old(ctx).dates_clash(new_start_mint_date, new_end_mint_date)
            ==> result == Err::<CollectionUpdated, AiNftError>(AiNftError::InvalidMintDates),
        old(ctx).refusal() is None && !old(ctx).dates_clash(
            new_start_mint_date,
            new_end_mint_date,
        ) ==> result == Ok::<CollectionUpdated, AiNftError>(
            CollectionUpdated {
                collection: old(ctx).collection.key,
                authority: old(ctx).collection.data.authority,
            },
        ),
        result is Err ==> *final(ctx) == *old(ctx),
        result is Ok ==> *final(ctx) == (UpdateCollection {
            collection: Account {
                key: old(ctx).collection.key,
                data: AINFTCollection {
                    name: chosen(new_name, old(ctx).collection.data.name),
                    uri: chosen(new_uri, old(ctx).collection.data.uri),
                    description: chosen(new_description, old(ctx).collection.data.description),
                    mint_price: chosen(new_mint_price, old(ctx).collection.data.mint_price),
                    start_mint_date: chosen(
                        new_start_mint_date,
                        old(ctx).collection.data.start_mint_date,
                    ),
                    end_mint_date: chosen(
                        new_end_mint_date,
                        old(ctx).collection.data.end_mint_date,
                    ),
                    ..old(ctx).collection.data
                },
            },
            ..*old(ctx)
        }),
{
    if ctx.collection.data.authority != ctx.authority {
        return Err(AiNftError::InvalidCollectionAuthority);
    }
    if ctx.collection.data.preminting_finalized {
        return Err(AiNftError::PremintingFinalized);
    }
    let start_date = match new_start_mint_date {
        Some(date) => date,
        None => ctx.collection.data.start_mint_date,
    };
    let end_date = match new_end_mint_date {
        Some(date) => date,
        None => ctx.collection.data.end_mint_date,
    };
    if (new_start_mint_date.is_some() || new_end_mint_date.is_some()) && end_date > 0
        && start_date >= end_date {
        return Err(AiNftError::InvalidMintDates);
    }
    match new_name {
        Some(name) => {
            ctx.collection.data.update_name(name);
        },
        None => {},
    }
    match new_uri {
        Some(uri) => {
            ctx.collection.data.update_uri(uri);
        },
        None => {},
    }
    match new_description {
        Some(description) => {
            ctx.collection.data.update_description(description);
        },
        None => {},
    }
    match new_mint_price {
        Some(price) => {
            ctx.collection.data.update_mint_price(price);
        },
        None => {},
    }
    ctx.collection.data.update_mint_dates(start_date, end_date);
    Ok(
        CollectionUpdated {
            collection: ctx.collection.key,
            authority: ctx.collection.data.authority,
        },
    )
}

} // verus!
