//! Who may move funds: wallets that signed, and accounts that the program
//! itself controls through the seeds their addresses derive from.
use crate::pubkey::Pubkey;
use vstd::prelude::*;
use vstd::slice::slice_to_vec;

verus! {

/// The address that the ledger derives for `program_id` from `seeds`, as
/// bytes; `None` where the seeds derive no address.
pub uninterp spec fn program_address(seeds: Seq<Seq<u8>>, program_id: Seq<u8>) -> Option<Seq<u8>>;

/// A seed list as plain byte sequences.
pub open spec fn seeds_view(seeds: Seq<&[u8]>) -> Seq<Seq<u8>> {
    Seq::new(seeds.len(), |i: int| seeds[i]@)
}

/// A stored seed list as plain byte sequences.
pub open spec fn stored_seeds_view(seeds: Seq<Vec<u8>>) -> Seq<Seq<u8>> {
    Seq::new(seeds.len(), |i: int| seeds[i]@)
}

/// Calls `Pubkey::create_program_address` of `anchor_lang` (the
/// `solana_program` key type it re-exports) on the seeds and the program id.
///
/// Claimed of it: the call depends on its two arguments alone, so its
/// outcome is `program_address` of them; an error of either kind is
/// reported as `None`.
#[verifier::external_body]
fn create_program_address(seeds: &[&[u8]], program_id: &Pubkey) -> (address: Option<Pubkey>)
    ensures
        match address {
            Some(key) => program_address(seeds_view(seeds@), program_id.bytes@) == Some(
                key.bytes@,
            ),
            None => program_address(seeds_view(seeds@), program_id.bytes@) is None,
        },
{
    let program = anchor_lang::prelude::Pubkey::new_from_array(program_id.bytes);
    match anchor_lang::prelude::Pubkey::create_program_address(seeds, &program) {
        Ok(key) => Some(Pubkey { bytes: key.to_bytes() }),
        Err(_) => None,
    }
}

/// The bytes of an address that may be absent.
pub open spec fn address_bytes(address: Option<Pubkey>) -> Option<Seq<u8>> {
    match address {
        Some(key) => Some(key.bytes@),
        None => None,
    }
}

/// The address that `seeds` derive for `program_id`, if they derive one.
pub fn derive_address(seeds: &[&[u8]], program_id: &Pubkey) -> (address: Option<Pubkey>)
    ensures
        address_bytes(address) == program_address(seeds_view(seeds@), program_id.bytes@),
{
    create_program_address(seeds, program_id)
}

/// Whether `address` is present and is `key`.
pub fn is_address(address: &Option<Pubkey>, key: &Pubkey) -> (same: bool)
    ensures
        same == (address_bytes(*address) == Some(key.bytes@)),
{
    match address {
        Some(derived) => {
            proof {
                Pubkey::lemma_same_bytes(*derived, *key);
            }
            *derived == *key
        },
        None => false,
    }
}

/// The address that an authority controls by derivation; `None` for a
/// missing authority and for a wallet's.
pub open spec fn derived_address(authority: Option<Authority>) -> Option<Seq<u8>> {
    match authority {
        Some(a) => if a.spec_is_derived() {
            Some(a.spec_account().bytes@)
        } else {
            None
        },
        None => None,
    }
}

/// Control over one account: the capability that every transfer, mint and
/// burn must carry.
///
/// It is either a wallet that signed the transaction, or an account whose
/// address derives from seeds that the program holds. A value of the second
/// kind exists only where the derivation was carried out and gave that
/// address.
#[derive(Debug)]
pub struct Authority {
    account: Pubkey,
    program_id: Pubkey,
    seeds: Vec<Vec<u8>>,
    derived: bool,
}

impl Authority {
    #[verifier::type_invariant]
    spec fn inv(self) -> bool {
        self.derived ==> program_address(stored_seeds_view(self.seeds@), self.program_id.bytes@)
            == Some(self.account.bytes@)
    }

    /// The account that is controlled.
    pub closed spec fn spec_account(&self) -> Pubkey {
        self.account
    }

    /// Whether control comes from derivation rather than a signature.
    pub closed spec fn spec_is_derived(&self) -> bool {
        self.derived
    }

    /// The seeds the program signs with; empty for a wallet.
    pub closed spec fn spec_seeds(&self) -> Seq<Seq<u8>> {
        stored_seeds_view(self.seeds@)
    }

    /// The program that controls a derived account.
    pub closed spec fn spec_program_id(&self) -> Pubkey {
        self.program_id
    }

    /// The authority of a wallet that signed the transaction.
    pub fn signer(wallet: Pubkey) -> (authority: Self)
        ensures
            authority.spec_account() == wallet,
            !authority.spec_is_derived(),
            authority.spec_seeds().len() == 0,
    {
        let authority = Authority {
            account: wallet,
            program_id: wallet,
            seeds: Vec::new(),
            derived: false,
        };
        assert(authority.spec_seeds() =~= Seq::<Seq<u8>>::empty());
        authority
    }

    /// The authority over the account that `seeds` derive for `program_id`;
    /// `None` exactly where they derive no address.
    pub fn derive(seeds: &[&[u8]], program_id: &Pubkey) -> (authority: Option<Self>)
        ensures
            match authority {
                Some(a) => {
                    &&& program_address(seeds_view(seeds@), program_id.bytes@) == Some(
                        a.spec_account().bytes@,
                    )
                    &&& a.spec_is_derived()
                    &&& a.spec_seeds() == seeds_view(seeds@)
                    &&& a.spec_program_id() == *program_id
                },
                None => program_address(seeds_view(seeds@), program_id.bytes@) is None,
            },
    {
        match create_program_address(seeds, program_id) {
            Some(account) => {
                let mut stored: Vec<Vec<u8>> = Vec::new();
                let mut i: usize = 0;
                while i < seeds.len()
                    invariant
                        i <= seeds@.len(),
                        stored@.len() == i,
                        forall|j: int| 0 <= j < i ==> stored@[j]@ == seeds@[j]@,
                    decreases seeds@.len() - i,
                {
                    stored.push(slice_to_vec(seeds[i]));
                    i += 1;
                }
                assert(stored_seeds_view(stored@) =~= seeds_view(seeds@));
                Some(Authority { account, program_id: *program_id, seeds: stored, derived: true })
            },
            None => None,
        }
    }

    /// The account that is controlled; for a derived authority, the address
    /// that its seeds derive.
    pub fn account(&self) -> (account: Pubkey)
        ensures
            account == self.spec_account(),
            self.spec_is_derived() ==> program_address(
                self.spec_seeds(),
                self.spec_program_id().bytes@,
            ) == Some(account.bytes@),
    {
        proof {
            use_type_invariant(self);
        }
        self.account
    }

    /// Whether this is control by derivation over `key`.
    pub fn controls_by_derivation(&self, key: &Pubkey) -> (controls: bool)
        ensures
            controls == (self.spec_is_derived() && self.spec_account() == *key),
    {
        self.derived && self.account == *key
    }

    /// A second capability over the same account, with the same seeds.
    pub fn duplicate(&self) -> (copy: Self)
        ensures
            copy.spec_account() == self.spec_account(),
            copy.spec_is_derived() == self.spec_is_derived(),
            copy.spec_seeds() == self.spec_seeds(),
            copy.spec_program_id() == self.spec_program_id(),
    {
        proof {
            use_type_invariant(self);
        }
        let mut seeds: Vec<Vec<u8>> = Vec::new();
        let mut i: usize = 0;
        while i < self.seeds.len()
            invariant
                i <= self.seeds@.len(),
                seeds@.len() == i,
                forall|j: int| 0 <= j < i ==> seeds@[j]@ == self.seeds@[j]@,
            decreases self.seeds@.len() - i,
        {
            seeds.push(slice_to_vec(self.seeds[i].as_slice()));
            i += 1;
        }
        assert(stored_seeds_view(seeds@) =~= stored_seeds_view(self.seeds@));
        Authority {
            account: self.account,
            program_id: self.program_id,
            seeds,
            derived: self.derived,
        }
    }

    /// Whether control comes from derivation rather than a signature.
    pub fn is_derived(&self) -> (derived: bool)
        ensures
            derived == self.spec_is_derived(),
    {
        self.derived
    }

    /// The seeds the program signs with; empty for a wallet.
    pub fn signer_seeds(&self) -> (seeds: &Vec<Vec<u8>>)
        ensures
            stored_seeds_view(seeds@) == self.spec_seeds(),
    {
        &self.seeds
    }
}

} // verus!
