//! What the program reads of token accounts and mints, and the orders it
//! gives to the credit ledger. The ledger keeps the balances; the program
//! decides amounts and authorities.
use crate::authority::Authority;
use crate::pubkey::Pubkey;
use vstd::prelude::*;

verus! {

/// A record together with the address it is stored at.
#[derive(Clone, Debug, PartialEq, Eq)]
pub struct Account<T> {
    pub key: Pubkey,
    pub data: T,
}

/// What an operation reads of a token account.
#[derive(Clone, Copy, Debug, PartialEq, Eq)]
pub struct TokenAccount {
    /// The address of the token account.
    pub key: Pubkey,
    /// The asset it holds.
    pub mint: Pubkey,
    /// Who controls it.
    pub owner: Pubkey,
    /// Its balance in smallest units.
    pub amount: u64,
}

/// What an operation reads of a mint.
#[derive(Clone, Copy, Debug, PartialEq, Eq)]
pub struct Mint {
    /// The address of the mint.
    pub key: Pubkey,
    /// Who may mint, if anyone.
    pub mint_authority: Option<Pubkey>,
    /// Units in circulation.
    pub supply: u64,
    pub decimals: u8,
}

/// An order to move `amount` units from one token account to another.
#[derive(Debug)]
pub struct Transfer {
    pub from: Pubkey,
    pub to: Pubkey,
    pub authority: Authority,
    pub amount: u64,
}

/// An order to mint `amount` new units into a token account.
#[derive(Debug)]
pub struct MintTo {
    pub mint: Pubkey,
    pub to: Pubkey,
    pub authority: Authority,
    pub amount: u64,
}

/// An order to burn `amount` units out of a token account.
#[derive(Debug)]
pub struct Burn {
    pub mint: Pubkey,
    pub from: Pubkey,
    pub authority: Authority,
    pub amount: u64,
}

} // verus!
