use crate::authority::{derived_address, Authority};
use crate::error::AiNftError;
use crate::events::AiNftMinted;
use crate::pubkey::Pubkey;
use crate::state::{AINFTCollection, AiCharacterNFT};
use crate::token::{Account, TokenAccount, Transfer};
use vstd::prelude::*;

verus! {

/// The records that buying a preminted character touches.
#[derive(Clone, Debug, PartialEq, Eq)]
pub struct PurchasePremintedNft {
    /// The character that is bought.
    pub ai_character: Account<AiCharacterNFT>,
    /// The collection that sells it.
    pub collection: Account<AINFTCollection>,
    /// The character's mint.
    pub nft_mint: Pubkey,
    /// The collection's token account, which holds the character.
    pub collection_token_account: TokenAccount,
    /// The buyer's token account, which receives it.
    pub buyer_token_account: TokenAccount,
    /// The buyer, who signed.
    pub buyer: Pubkey,
    /// The collection's owner, who is paid.
    pub collection_authority: Pubkey,
}

/// An order to pay `lamports` of the ledger's native currency.
#[derive(Clone, Copy, Debug, PartialEq, Eq)]
pub struct Payment {
    pub from: Pubkey,
    pub to: Pubkey,
    pub lamports: u64,
}

/// What the ledger must carry out for a purchase, and what is reported of
/// it.
#[derive(Debug)]
pub struct PurchaseReceipt {
    /// Pays the collection's mint price to its owner.
    pub payment: Payment,
    /// Moves the one token of the character to the buyer.
    pub transfer: Transfer,
    pub event: AiNftMinted,
}

impl PurchasePremintedNft {
    /// The first condition on the records, in this order, that does not
    /// hold, if there is one.
    pub open spec fn link_error(&self) -> Option<AiNftError> {
        if !self.ai_character.data.is_preminted || self.ai_character.data.is_minted {
            Some(AiNftError::InvalidTransfer)
        } else if self.ai_character.data.character_nft_mint != self.nft_mint {
            Some(AiNftError::InvalidAgentNftMint)
        } else if self.collection_token_account.mint != self.nft_mint
            || self.collection_token_account.owner != self.collection.key {
            Some(AiNftError::InvalidAgentNftTokenAccount)
        } else if self.buyer_token_account.mint != self.nft_mint {
            Some(AiNftError::InvalidAgentNftMint)
        } else if self.buyer_token_account.owner != self.buyer {
            Some(AiNftError::InvalidTokenOwner)
        } else if self.collection_authority != self.collection.data.authority {
            Some(AiNftError::InvalidCollectionAuthority)
        } else {
            None
        }
    }

    /// Why the purchase fails, if it does: a condition that does not hold,
    /// or a collection that is not at the address `collection_address`
    /// that its seeds derive.
    pub open spec fn error(&self, collection_address: Option<Seq<u8>>) -> Option<AiNftError> {
        if self.link_error() is Some {
            self.link_error()
        } else if collection_address != Some(self.collection.key.bytes@) {
            Some(AiNftError::InvalidCollectionAuthority)
        } else {
            None
        }
    }

    /// What a successful purchase leaves behind: the records `after` and
    /// the `receipt`.
    pub open spec fn purchased(
        &self,
        after: PurchasePremintedNft,
        receipt: PurchaseReceipt,
    ) -> bool {
        &&& receipt.payment == (Payment {
            from: self.buyer,
            to: self.collection_authority,
            lamports: self.collection.data.mint_price,
        })
        &&& receipt.transfer.from == self.collection_token_account.key
        &&& receipt.transfer.to == self.buyer_token_account.key
        &&& receipt.transfer.amount == 1
        &&& receipt.transfer.authority.spec_account() == self.collection.key
        &&& receipt.transfer.authority.spec_is_derived()
        &&& receipt.event == (AiNftMinted {
            ai_nft: self.ai_character.key,
            collection: self.collection.key,
            owner: self.buyer,
        })
        &&& after == (PurchasePremintedNft {
            ai_character: Account {
                key: self.ai_character.key,
                data: AiCharacterNFT { is_minted: true, ..self.ai_character.data },
            },
            ..*self
        })
    }

    fn check_links(&self) -> (result: Result<(), AiNftError>)
        ensures
            match result {
                Ok(()) => self.link_error() is None,
                Err(e) => self.link_error() == Some(e),
            },
    {
        if !self.ai_character.data.is_preminted || self.ai_character.data.is_minted {
            return Err(AiNftError::InvalidTransfer);
        }
        if self.ai_character.data.character_nft_mint != self.nft_mint {
            return Err(AiNftError::InvalidAgentNftMint);
        }
        if self.collection_token_account.mint != self.nft_mint
            || self.collection_token_account.owner != self.collection.key {
            return Err(AiNftError::InvalidAgentNftTokenAccount);
        }
        if self.buyer_token_account.mint != self.nft_mint {
            return Err(AiNftError::InvalidAgentNftMint);
        }
        if self.buyer_token_account.owner != self.buyer {
            return Err(AiNftError::InvalidTokenOwner);
        }
        if self.collection_authority != self.collection.data.authority {
            return Err(AiNftError::InvalidCollectionAuthority);
        }
        Ok(())
    }
}

/// Sells a preminted character to the signer at the collection's mint
/// price.
///
/// `collection_authority` is the capability derived from the collection's
/// seeds; it must control the collection's own address.
///
/// The character must be preminted and not bought yet. It is marked
/// bought; the price is ordered from the buyer to the collection's owner,
/// and the character's token from the collection to the buyer under the
/// collection's authority.
///
/// Any failure leaves every record as it was and orders nothing.
pub fn purchase_preminted_nft_handler(
    ctx: &mut PurchasePremintedNft,
    collection_authority: Option<Authority>,
) -> (result: Result<PurchaseReceipt, AiNftError>)
    ensures
        match result {
            Err(e) => {
                &&& old(ctx).error(derived_address(collection_authority)) == Some(e)
                &&& *final(ctx) == *old(ctx)
            },
            Ok(receipt) => {
                &&& old(ctx).error(derived_address(collection_authority)) is None
                &&& old(ctx).purchased(*final(ctx), receipt)
                &&& Some(receipt.transfer.authority) == collection_authority
            },
        },
{
    match ctx.check_links() {
        Ok(()) => {},
        Err(e) => {
            return Err(e);
        },
    }
    let collection_key = ctx.collection.key;
    let collection_authority = match collection_authority {
        Some(a) => a,
        None => {
            return Err(AiNftError::InvalidCollectionAuthority);
        },
    };
    proof {
        Pubkey::lemma_same_bytes(collection_authority.spec_account(), collection_key);
    }
    if !collection_authority.controls_by_derivation(&collection_key) {
        return Err(AiNftError::InvalidCollectionAuthority);
    }
    let payment = Payment {
        from: ctx.buyer,
        to: ctx.collection_authority,
        lamports: ctx.collection.data.mint_price,
    };
    let transfer = Transfer {
        from: ctx.collection_token_account.key,
        to: ctx.buyer_token_account.key,
        authority: collection_authority,
        amount: 1,
    };
    ctx.ai_character.data.set_minted(true);
    Ok(
        PurchaseReceipt {
            payment,
            transfer,
            event: AiNftMinted {
                ai_nft: ctx.ai_character.key,
                collection: collection_key,
                owner: ctx.buyer,
            },
        },
    )
}

} // verus!
