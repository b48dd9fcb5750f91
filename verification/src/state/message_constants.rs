use vstd::prelude::*;

verus! {

pub const DISCRIMINATOR_SIZE: usize = 8;

pub const PUBKEY_SIZE: usize = 32;

pub const BOOL_SIZE: usize = 1;

pub const U8_SIZE: usize = 1;

pub const I64_SIZE: usize = 8;

/// Size of the length prefix of a stored string.
pub const STRING_PREFIX_SIZE: usize = 4;

/// Size of the tag of a stored optional value.
pub const OPTION_PREFIX_SIZE: usize = 1;

/// Most bytes a message's content may hold.
pub const MAX_CONTENT_LENGTH: usize = 1000;

/// Most bytes a response may hold.
pub const MAX_RESPONSE_LENGTH: usize = 7000;

/// Bytes a stored message takes at most.
pub const MESSAGE_AI_CHARACTER_SIZE: usize = DISCRIMINATOR_SIZE + PUBKEY_SIZE + PUBKEY_SIZE
    + PUBKEY_SIZE + STRING_PREFIX_SIZE + MAX_CONTENT_LENGTH + OPTION_PREFIX_SIZE
    + STRING_PREFIX_SIZE + MAX_RESPONSE_LENGTH + BOOL_SIZE + I64_SIZE + I64_SIZE + U8_SIZE;

} // verus!
