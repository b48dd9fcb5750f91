//! Side effects that a response may ask for. The program routes them to a
//! dispatcher and carries none of them out itself.
use vstd::prelude::*;

verus! {

/// The kinds of side effect a response can ask for.
#[derive(Clone, Copy, Debug, PartialEq, Eq, Structural)]
pub enum Action {
    Transfer,
}

/// One requested side effect.
#[derive(Clone, Copy, Debug, PartialEq, Eq)]
pub struct ActionParams {
    pub action_type: Action,
    pub amount: Option<u64>,
}

impl ActionParams {
    /// A request to transfer `amount`.
    pub fn new_transfer(amount: u64) -> (params: Self)
        ensures
            params == (ActionParams { action_type: Action::Transfer, amount: Some(amount) }),
    {
        ActionParams { action_type: Action::Transfer, amount: Some(amount) }
    }
}

} // verus!
