//! The deployment an operation runs under, handed to each operation rather
//! than looked up.
use crate::pubkey::Pubkey;
use vstd::prelude::*;

verus! {

/// When the sender of a message pays.
#[derive(Clone, Copy, Debug, PartialEq, Eq, Structural)]
pub enum PaymentPolicy {
    /// One unit moves from the sender to the character when the message is
    /// sent.
    ChargeAtSend,
    /// Nothing moves when the message is sent; the fee is settled when it
    /// is answered.
    ChargeAtAnswer,
}

/// One deployment of the program.
#[derive(Clone, Copy, Debug, PartialEq, Eq)]
pub struct Program {
    /// The identity under which account addresses derive.
    pub program_id: Pubkey,
    pub payment_policy: PaymentPolicy,
}

} // verus!
