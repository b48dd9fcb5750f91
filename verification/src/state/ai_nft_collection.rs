use crate::authority::seeds_view;
use crate::error::AiNftError;
use crate::pubkey::Pubkey;
use vstd::prelude::*;
use vstd::string::StringSliceAdditionalSpecFns;
use vstd::utf8::encode_utf8;

verus! {

/// A collection of AI characters: its terms of sale and who may buy.
#[derive(Clone, Debug, PartialEq, Eq)]
pub struct AINFTCollection {
    /// The owner of the collection.
    pub authority: Pubkey,
    pub mint: Pubkey,
    pub name: String,
    pub uri: String,
    pub description: String,
    /// Royalty in hundredths of a percent.
    pub royalty_basis_points: u16,
    /// Characters minted in this collection so far.
    pub mint_count: u64,
    pub mint_price: u64,
    /// When minting opens, in seconds since the epoch.
    pub start_mint_date: i64,
    /// When minting closes, in seconds since the epoch; zero or less means
    /// never.
    pub end_mint_date: i64,
    pub preminting_finalized: bool,
    /// The wallets allowed to mint; an empty list allows everyone.
    pub whitelist: Vec<Pubkey>,
    pub bump: [u8; 1],
}

impl AINFTCollection {
    /// Bytes a stored collection takes at most.
    pub const LEN: usize = 8 + 32 + 32 + 4 + 32 + 4 + 200 + 4 + 500 + 2 + 8 + 8 + 8 + 8 + 1 + 4 + (32
        * 20) + 1;

    /// The seed list from which the collection's address is derived: the
    /// tag `collection`, the owner, the name, the bump.
    pub open spec fn spec_seeds(&self) -> Seq<Seq<u8>> {
        seq!["collection".spec_bytes(), self.authority.bytes@, encode_utf8(self.name@), self.bump@]
    }

    /// The seed list from which the collection's address is derived.
    pub fn seeds<'a>(&'a self) -> (seeds: [&'a [u8]; 4])
        ensures
            seeds_view(seeds@) == self.spec_seeds(),
    {
        let seeds = [
            "collection".as_bytes(),
            self.authority.bytes.as_slice(),
            self.name.as_str().as_bytes(),
            self.bump.as_slice(),
        ];
        assert(seeds_view(seeds@) =~= self.spec_seeds());
        seeds
    }

    /// A collection with nothing minted, preminting open and no whitelist.
    pub fn try_new(
        authority: Pubkey,
        mint: Pubkey,
        name: String,
        uri: String,
        description: String,
        royalty_basis_points: u16,
        mint_price: u64,
        start_mint_date: i64,
        end_mint_date: i64,
        bump: u8,
    ) -> (collection: Self)
        ensures
            collection.authority == authority,
            collection.mint == mint,
            collection.name == name,
            collection.uri == uri,
            collection.description == description,
            collection.royalty_basis_points == royalty_basis_points,
            collection.mint_count == 0,
            collection.mint_price == mint_price,
            collection.start_mint_date == start_mint_date,
            collection.end_mint_date == end_mint_date,
            !collection.preminting_finalized,
            collection.whitelist@.len() == 0,
            collection.bump@ == seq![bump],
    {
        let collection = AINFTCollection {
            authority,
            mint,
            name,
            uri,
            description,
            royalty_basis_points,
            mint_count: 0,
            mint_price,
            start_mint_date,
            end_mint_date,
            preminting_finalized: false,
            whitelist: Vec::new(),
            bump: [bump],
        };
        assert(collection.bump@ =~= seq![bump]);
        collection
    }

    /// Counts one more minted character; the count stays at its limit
    /// rather than wrapping.
    pub fn increment_mint_count(&mut self)
        ensures
            *final(self) == (AINFTCollection {
                mint_count: if old(self).mint_count == u64::MAX {
                    u64::MAX
                } else {
                    (old(self).mint_count + 1) as u64
                },
                ..*old(self)
            }),
    {
        self.mint_count = self.mint_count.saturating_add(1);
    }

    pub fn update_authority(&mut self, new_authority: Pubkey)
        ensures
            *final(self) == (AINFTCollection { authority: new_authority, ..*old(self) }),
    {
        self.authority = new_authority;
    }

    pub fn update_uri(&mut self, new_uri: String)
        ensures
            *final(self) == (AINFTCollection { uri: new_uri, ..*old(self) }),
    {
        self.uri = new_uri;
    }

    pub fn update_royalty_basis_points(&mut self, new_royalty_basis_points: u16)
        ensures
            *final(self) == (AINFTCollection {
                royalty_basis_points: new_royalty_basis_points,
                ..*old(self)
            }),
    {
        self.royalty_basis_points = new_royalty_basis_points;
    }

    pub fn update_name(&mut self, new_name: String)
        ensures
            *final(self) == (AINFTCollection { name: new_name, ..*old(self) }),
    {
        self.name = new_name;
    }

    pub fn update_mint_price(&mut self, new_mint_price: u64)
        ensures
            *final(self) == (AINFTCollection { mint_price: new_mint_price, ..*old(self) }),
    {
        self.mint_price = new_mint_price;
    }

    pub fn update_mint_dates(&mut self, new_start_date: i64, new_end_date: i64)
        ensures
            *final(self) == (AINFTCollection {
                start_mint_date: new_start_date,
                end_mint_date: new_end_date,
                ..*old(self)
            }),
    {
        self.start_mint_date = new_start_date;
        self.end_mint_date = new_end_date;
    }

    pub fn update_description(&mut self, new_description: String)
        ensures
            *final(self) == (AINFTCollection { description: new_description, ..*old(self) }),
    {
        self.description = new_description;
    }

    /// Where `wallet` first stands in the whitelist, if it is there.
    fn whitelist_position(&self, wallet: &Pubkey) -> (position: Option<usize>)
        ensures
            match position {
                Some(i) => {
                    &&& i < self.whitelist@.len()
                    &&& self.whitelist@[i as int] == *wallet
                    &&& forall|j: int| 0 <= j < i ==> self.whitelist@[j] != *wallet
                },
                None => !self.whitelist@.contains(*wallet),
            },
    {
        let mut i: usize = 0;
        while i < self.whitelist.len()
            invariant
                i <= self.whitelist@.len(),
                forall|j: int| 0 <= j < i ==> self.whitelist@[j] != *wallet,
            decreases self.whitelist@.len() - i,
        {
            if self.whitelist[i] == *wallet {
                return Some(i);
            }
            i += 1;
        }
        None
    }

    /// Whether `wallet` may mint: everyone may while the whitelist is
    /// empty, and after that only the wallets on it.
    pub fn is_whitelisted(&self, wallet: &Pubkey) -> (allowed: bool)
        ensures
            allowed == (self.whitelist@.len() == 0 || self.whitelist@.contains(*wallet)),
    {
        if self.whitelist.is_empty() {
            return true;
        }
        self.whitelist_position(wallet).is_some()
    }

    /// Puts `wallet` on the whitelist, at its end, unless it is on it
    /// already. Always succeeds.
    pub fn add_to_whitelist(&mut self, wallet: Pubkey) -> (result: Result<(), AiNftError>)
        ensures
            result is Ok,
            final(self).whitelist@ == if old(self).whitelist@.contains(wallet) {
                old(self).whitelist@
            } else {
                old(self).whitelist@.push(wallet)
            },
            final(self).whitelist@.contains(wallet),
            old(self).whitelist@.no_duplicates() ==> final(self).whitelist@.no_duplicates(),
            *final(self) == (AINFTCollection { whitelist: final(self).whitelist, ..*old(self) }),
    {
        if self.whitelist_position(&wallet).is_some() {
            return Ok(());
        }
        self.whitelist.push(wallet);
        assert(self.whitelist@[self.whitelist@.len() - 1] == wallet);
        Ok(())
    }

    /// Takes the first entry for `wallet` off the whitelist; a wallet that
    /// is not on it changes nothing. Always succeeds.
    pub fn remove_from_whitelist(&mut self, wallet: &Pubkey) -> (result: Result<(), AiNftError>)
        ensures
            result is Ok,
            !old(self).whitelist@.contains(*wallet) ==> final(self).whitelist@ == old(
                self,
            ).whitelist@,
            old(self).whitelist@.contains(*wallet) ==> exists|i: int|
                {
                    &&& 0 <= i < old(self).whitelist@.len()
                    &&& old(self).whitelist@[i] == *wallet
                    &&& forall|j: int| 0 <= j < i ==> old(self).whitelist@[j] != *wallet
                    &&& final(self).whitelist@ == #[trigger] old(self).whitelist@.remove(i)
                },
            old(self).whitelist@.no_duplicates() ==> final(self).whitelist@.no_duplicates()
                && !final(self).whitelist@.contains(*wallet),
            *final(self) == (AINFTCollection { whitelist: final(self).whitelist, ..*old(self) }),
    {
        match self.whitelist_position(wallet) {
            Some(index) => {
                let ghost before = self.whitelist@;
                self.whitelist.remove(index);
                proof {
                    let after = self.whitelist@;
                    assert(after == before.remove(index as int));
                    if before.no_duplicates() {
                        assert forall|a: int, b: int|
                            0 <= a < after.len() && 0 <= b < after.len() && a != b implies after[a]
                            != after[b] by {
                            let a0 = if a < index { a } else { a + 1 };
                            let b0 = if b < index { b } else { b + 1 };
                            assert(after[a] == before[a0]);
                            assert(after[b] == before[b0]);
                        }
                        assert forall|a: int| 0 <= a < after.len() implies after[a] != *wallet by {
                            let a0 = if a < index { a } else { a + 1 };
                            assert(after[a] == before[a0]);
                        }
                    }
                }
            },
            None => {},
        }
        Ok(())
    }

    /// The supply is unlimited, which is reported as zero.
    pub fn get_total_supply(&self) -> (supply: u64)
        ensures
            supply == 0,
    {
        0
    }

    pub fn get_authority(&self) -> (authority: Pubkey)
        ensures
            authority == self.authority,
    {
        self.authority
    }

    pub fn get_mint(&self) -> (mint: Pubkey)
        ensures
            mint == self.mint,
    {
        self.mint
    }

    /// Whether minting is open at `current_time`: not before the start, and
    /// not after the end where an end is set.
    pub fn is_mint_active(&self, current_time: i64) -> (active: bool)
        ensures
            active == (self.start_mint_date <= current_time && !(self.end_mint_date > 0
                && current_time > self.end_mint_date)),
    {
        if current_time < self.start_mint_date {
            return false;
        }
        if self.end_mint_date > 0 && current_time > self.end_mint_date {
            return false;
        }
        true
    }
}

} // verus!
