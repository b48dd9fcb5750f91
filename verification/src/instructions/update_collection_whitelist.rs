use crate::error::AiNftError;
use crate::events::CollectionWhitelistUpdated;
use crate::pubkey::Pubkey;
use crate::state::AINFTCollection;
use crate::token::Account;
use vstd::prelude::*;

verus! {

/// The records that a change of a collection's whitelist touches.
#[derive(Clone, Debug, PartialEq, Eq)]
pub struct UpdateCollectionWhitelist {
    /// The collection whose whitelist changes.
    pub collection: Account<AINFTCollection>,
    /// The wallet that signed; it must own the collection.
    pub authority: Pubkey,
}

/// What to do with a wallet on a whitelist.
#[derive(Clone, Copy, Debug, PartialEq, Eq, Structural)]
pub enum WhitelistAction {
    Add,
    Remove,
}

impl UpdateCollectionWhitelist {
    /// Why the owner's change of a whitelist is refused, if it is: a wallet
    /// that does not own the collection, or preminting that was finalized.
    pub open spec fn refusal(&self) -> Option<AiNftError> {
        if self.collection.data.authority != self.authority {
            Some(AiNftError::InvalidCollectionAuthority)
        } else if self.collection.data.preminting_finalized {
            Some(AiNftError::PremintingFinalized)
        } else {
            None
        }
    }

    fn check(&self) -> (result: Result<(), AiNftError>)
        ensures
            match result {
                Ok(()) => self.refusal() is None,
                Err(e) => self.refusal() == Some(e),
            },
    {
        if self.collection.data.authority != self.authority {
            return Err(AiNftError::InvalidCollectionAuthority);
        }
        if self.collection.data.preminting_finalized {
            return Err(AiNftError::PremintingFinalized);
        }
        Ok(())
    }
}

/// Puts a wallet on a collection's whitelist or takes it off.
///
/// Only the owner may do so, and only until preminting is finalized; a
/// refusal changes nothing. A list without repetitions stays so, holds the
/// wallet after an addition and does not hold it after a removal. The
/// event reports the action as 0 for an addition and 1 for a removal.
pub fn update_collection_whitelist_handler(
    ctx: &mut UpdateCollectionWhitelist,
    collection_name: String,
    wallet: Pubkey,
    action: WhitelistAction,
) -> (result: Result<CollectionWhitelistUpdated, AiNftError>)
    ensures
        match result {
            Err(e) => old(ctx).refusal() == Some(e) && *final(ctx) == *old(ctx),
            Ok(event) => {
                let before = old(ctx).collection.data.whitelist@;
                let after = final(ctx).collection.data.whitelist@;
                &&& old(ctx).refusal() is None
                &&& event == (CollectionWhitelistUpdated {
                    collection: old(ctx).collection.key,
                    authority: old(ctx).collection.data.authority,
                    wallet,
                    action: match action {
                        WhitelistAction::Add => 0u8,
                        WhitelistAction::Remove => 1u8,
                    },
                })
                &&& match action {
                    WhitelistAction::Add => after == if before.contains(wallet) {
                        before
                    } else {
                        before.push(wallet)
                    },
                    WhitelistAction::Remove => if before.contains(wallet) {
                        exists|i: int|
                            {
                                &&& 0 <= i < before.len()
                                &&& before[i] == wallet
                                &&& forall|j: int| 0 <= j < i ==> before[j] != wallet
                                &&& after == #[trigger] before.remove(i)
                            }
                    } else {
                        after == before
                    },
                }
                &&& before.no_duplicates() ==> after.no_duplicates() && (after.contains(wallet)
                    <==> action == WhitelistAction::Add)
                &&& *final(ctx) == (UpdateCollectionWhitelist {
                    collection: Account {
                        key: old(ctx).collection.key,
                        data: AINFTCollection {
                            whitelist: final(ctx).collection.data.whitelist,
                            ..old(ctx).collection.data
                        },
                    },
                    ..*old(ctx)
                })
            },
        },
{
    match ctx.check() {
        Ok(()) => {},
        Err(e) => {
            return Err(e);
        },
    }
    let code: u8 = match action {
        WhitelistAction::Add => {
            match ctx.collection.data.add_to_whitelist(wallet) {
                Ok(()) => {},
                Err(e) => {
                    return Err(e);
                },
            }
            0
        },
        WhitelistAction::Remove => {
            match ctx.collection.data.remove_from_whitelist(&wallet) {
                Ok(()) => {},
                Err(e) => {
                    return Err(e);
                },
            }
            1
        },
    };
    Ok(
        CollectionWhitelistUpdated {
            collection: ctx.collection.key,
            authority: ctx.collection.data.authority,
            wallet,
            action: code,
        },
    )
}

/// Empties a collection's whitelist, which opens minting to everyone.
///
/// Only the owner may do so, and only until preminting is finalized; a
/// refusal changes nothing. The event reports the action as 2 and names
/// the all-zero wallet.
pub fn clear_collection_whitelist_handler(
    ctx: &mut UpdateCollectionWhitelist,
    collection_name: String,
) -> (result: Result<CollectionWhitelistUpdated, AiNftError>)
    ensures
        match result {
            Err(e) => old(ctx).refusal() == Some(e) && *final(ctx) == *old(ctx),
            Ok(event) => {
                &&& old(ctx).refusal() is None
                &&& event.collection == old(ctx).collection.key
                &&& event.authority == old(ctx).collection.data.authority
                &&& event.wallet.is_zero()
                &&& event.action == 2
                &&& final(ctx).collection.data.whitelist@.len() == 0
                &&& *final(ctx) == (UpdateCollectionWhitelist {
                    collection: Account {
                        key: old(ctx).collection.key,
                        data: AINFTCollection {
                            whitelist: final(ctx).collection.data.whitelist,
                            ..old(ctx).collection.data
                        },
                    },
                    ..*old(ctx)
                })
            },
        },
{
    match ctx.check() {
        Ok(()) => {},
        Err(e) => {
            return Err(e);
        },
    }
    ctx.collection.data.whitelist.clear();
    Ok(
        CollectionWhitelistUpdated {
            collection: ctx.collection.key,
            authority: ctx.collection.data.authority,
            wallet: Pubkey::default(),
            action: 2,
        },
    )
}

} // verus!
