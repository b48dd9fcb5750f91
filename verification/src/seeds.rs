//! The seed lists from which the addresses of the program's records derive,
//! and why no two records share one.
use crate::instructions::create_app_ainft::registry_seeds;
use crate::instructions::create_character_config::character_config_seeds;
use crate::instructions::create_collection::collection_seeds;
use crate::instructions::premint_nft::character_seeds;
use crate::instructions::register_execution_client::execution_client_seeds;
use crate::pubkey::Pubkey;
use crate::state::message::message_seeds;
use crate::state::stake_account::staker_seeds;
use vstd::bytes::lemma_auto_spec_u64_to_from_le_bytes;
use vstd::prelude::*;
use vstd::string::{is_ascii, is_ascii_spec_bytes, StringSliceAdditionalSpecFns};
use vstd::utf8::encode_utf8_decode_utf8;

verus! {

/// A place where the program keeps a record, named by what identifies the
/// record.
pub enum Slot {
    /// The registry.
    Registry { bump: u8 },
    /// The client that `authority` runs under the registry `ai_nft`.
    ExecutionClient { ai_nft: Pubkey, authority: Pubkey, bump: u8 },
    /// The position of `authority` with `execution_client`.
    Staker { execution_client: Pubkey, authority: Pubkey, bump: u8 },
    /// Message number `index` of `ai_character`.
    Message { ai_nft: Pubkey, ai_character: Pubkey, index: u64, bump: u8 },
    /// The character with the mint `character_nft_mint`.
    Character { character_nft_mint: Pubkey, bump: u8 },
    /// The collection that `authority` owns under `name`.
    Collection { authority: Pubkey, name: Seq<char>, bump: u8 },
    /// The personality that `authority` created under the name `id`.
    CharacterConfig { authority: Pubkey, id: Seq<char>, bump: u8 },
}

impl Slot {
    /// The seed list from which the slot's address derives.
    pub open spec fn seeds(self) -> Seq<Seq<u8>> {
        match self {
            Slot::Registry { bump } => registry_seeds(bump),
            Slot::ExecutionClient { ai_nft, authority, bump } => execution_client_seeds(
                ai_nft,
                authority,
                bump,
            ),
            Slot::Staker { execution_client, authority, bump } => staker_seeds(
                execution_client,
                authority,
                bump,
            ),
            Slot::Message { ai_nft, ai_character, index, bump } => message_seeds(
                ai_nft,
                ai_character,
                index,
                bump,
            ),
            Slot::Character { character_nft_mint, bump } => character_seeds(
                character_nft_mint,
                bump,
            ),
            Slot::Collection { authority, name, bump } => collection_seeds(authority, name, bump),
            Slot::CharacterConfig { authority, id, bump } => character_config_seeds(
                authority,
                id,
                bump,
            ),
        }
    }
}

/// The tags that open the seed lists differ from kind to kind wherever two
/// kinds have lists of the same length.
proof fn lemma_tags_differ()
    ensures
        "execution_client".spec_bytes() != "staker".spec_bytes(),
        "execution_client".spec_bytes() != "collection".spec_bytes(),
        "execution_client".spec_bytes() != "character_config".spec_bytes(),
        "staker".spec_bytes() != "collection".spec_bytes(),
        "staker".spec_bytes() != "character_config".spec_bytes(),
        "collection".spec_bytes() != "character_config".spec_bytes(),
{
    broadcast use is_ascii_spec_bytes;

    reveal_strlit("execution_client");
    reveal_strlit("staker");
    reveal_strlit("collection");
    reveal_strlit("character_config");
    assert(is_ascii("execution_client") && is_ascii("staker"));
    assert(is_ascii("collection") && is_ascii("character_config"));
    assert("execution_client".spec_bytes().len() == 16);
    assert("staker".spec_bytes().len() == 6);
    assert("collection".spec_bytes().len() == 10);
    assert("character_config".spec_bytes().len() == 16);
    assert("execution_client".spec_bytes()[0] == 101u8);
    assert("character_config".spec_bytes()[0] == 99u8);
}

/// Keys with the same bytes, and bumps in the same one-byte seed, are the
/// same.
proof fn lemma_same_parts(a: Pubkey, b: Pubkey, x: u8, y: u8)
    ensures
        a.bytes@ == b.bytes@ ==> a == b,
        seq![x] == seq![y] ==> x == y,
{
    Pubkey::lemma_same_bytes(a, b);
    if seq![x] == seq![y] {
        assert(seq![x][0] == seq![y][0]);
    }
}

/// No two slots share a seed list: slots of different kinds never do, and
/// slots of one kind only when every part of their identity agrees. So every
/// record has an address of its own for as long as the program lives, and
/// message numbers in particular are never reused.
pub proof fn lemma_seeds_are_collision_free(a: Slot, b: Slot)
    requires
        a.seeds() == b.seeds(),
    ensures
        a == b,
{
    lemma_tags_differ();
    let s = a.seeds();
    let t = b.seeds();
    assert(s.len() == t.len());
    assert(s[0] == t[0]);
    match (a, b) {
        (Slot::Registry { bump: x }, Slot::Registry { bump: y }) => {
            assert(s[1] == t[1]);
            assert(seq![x][0] == seq![y][0]);
        },
        (
            Slot::ExecutionClient { ai_nft: p, authority: q, bump: x },
            Slot::ExecutionClient { ai_nft: u, authority: v, bump: y },
        ) => {
            assert(s[1] == t[1] && s[2] == t[2] && s[3] == t[3]);
            lemma_same_parts(p, u, x, y);
            lemma_same_parts(q, v, x, y);
        },
        (
            Slot::Staker { execution_client: p, authority: q, bump: x },
            Slot::Staker { execution_client: u, authority: v, bump: y },
        ) => {
            assert(s[1] == t[1] && s[2] == t[2] && s[3] == t[3]);
            lemma_same_parts(p, u, x, y);
            lemma_same_parts(q, v, x, y);
        },
        (
            Slot::Message { ai_nft: p, ai_character: q, index: i, bump: x },
            Slot::Message { ai_nft: u, ai_character: v, index: j, bump: y },
        ) => {
            assert(s[1] == t[1] && s[2] == t[2] && s[3] == t[3] && s[4] == t[4]);
            lemma_same_parts(p, u, x, y);
            lemma_same_parts(q, v, x, y);
            lemma_auto_spec_u64_to_from_le_bytes();
        },
        (
            Slot::Character { character_nft_mint: p, bump: x },
            Slot::Character { character_nft_mint: u, bump: y },
        ) => {
            assert(s[1] == t[1] && s[2] == t[2]);
            lemma_same_parts(p, u, x, y);
        },
        (
            Slot::Collection { authority: p, name: n, bump: x },
            Slot::Collection { authority: u, name: m, bump: y },
        ) => {
            assert(s[1] == t[1] && s[2] == t[2] && s[3] == t[3]);
            lemma_same_parts(p, u, x, y);
            encode_utf8_decode_utf8(n);
            encode_utf8_decode_utf8(m);
        },
        (
            Slot::CharacterConfig { authority: p, id: n, bump: x },
            Slot::CharacterConfig { authority: u, id: m, bump: y },
        ) => {
            assert(s[1] == t[1] && s[2] == t[2] && s[3] == t[3]);
            lemma_same_parts(p, u, x, y);
            encode_utf8_decode_utf8(n);
            encode_utf8_decode_utf8(m);
        },
        _ => {},
    }
}

} // verus!
