use ainft::authority::{derive_address, is_address, Authority};
use ainft::error::AiNftError;
use ainft::pubkey::Pubkey;
use ainft::text::truncate_str;

fn key(n: u8) -> Pubkey {
    Pubkey::new_from_array([n; 32])
}

fn ledger_key(k: &Pubkey) -> anchor_lang::prelude::Pubkey {
    anchor_lang::prelude::Pubkey::new_from_array(k.to_bytes())
}

#[test]
fn a_signer_controls_its_own_wallet() {
    let authority = Authority::signer(key(7));
    assert_eq!(authority.account(), key(7));
    assert!(!authority.is_derived());
    assert!(authority.signer_seeds().is_empty());
}

#[test]
fn derive_gives_the_address_the_ledger_derives() {
    let program = key(200);
    let (expected, bump) =
        anchor_lang::prelude::Pubkey::find_program_address(&[b"vault", &[1, 2, 3]], &ledger_key(&program));
    let seeds: [&[u8]; 3] = [b"vault", &[1, 2, 3], &[bump]];
    let authority = Authority::derive(&seeds, &program).unwrap();
    assert_eq!(authority.account().to_bytes(), expected.to_bytes());
    assert_ne!(authority.account(), program);
    assert!(authority.is_derived());
    assert_eq!(authority.signer_seeds(), &vec![b"vault".to_vec(), vec![1, 2, 3], vec![bump]]);
    let address = derive_address(&seeds, &program);
    assert_eq!(address, Some(authority.account()));
    assert!(is_address(&address, &authority.account()));
    assert!(!is_address(&address, &program));
    assert!(!is_address(&None, &program));
    assert_ne!(derive_address(&seeds, &key(201)), address);
    assert!(authority.controls_by_derivation(&authority.account()));
    assert!(!authority.controls_by_derivation(&program));
    assert!(!Authority::signer(program).controls_by_derivation(&program));
    let copy = authority.duplicate();
    assert_eq!(copy.account(), authority.account());
    assert_eq!(copy.is_derived(), authority.is_derived());
    assert_eq!(copy.signer_seeds(), authority.signer_seeds());
}

#[test]
fn derive_depends_on_every_seed() {
    let program = key(200);
    let mut found = Vec::new();
    for tag in [&b"a"[..], &b"b"[..], &b"ab"[..]] {
        let (address, _) = anchor_lang::prelude::Pubkey::find_program_address(&[tag], &ledger_key(&program));
        assert!(!found.contains(&address));
        found.push(address);
    }
}

#[test]
fn derive_refuses_seeds_that_derive_nothing() {
    let program = key(200);
    // A seed of more than 32 bytes derives no address.
    let long = [0u8; 33];
    assert!(Authority::derive(&[&long], &program).is_none());
    assert_eq!(derive_address(&[&long], &program), None);
    // Nor do more than sixteen seeds.
    let many: Vec<&[u8]> = (0..17).map(|_| &b"s"[..]).collect();
    assert!(Authority::derive(&many, &program).is_none());
    // For some bump the derived point lies on the curve and is refused: the
    // bump that the ledger reports is the highest that works.
    let (_, bump) = anchor_lang::prelude::Pubkey::find_program_address(&[b"x"], &ledger_key(&program));
    for higher in (bump as u16 + 1)..=255 {
        assert!(Authority::derive(&[b"x", &[higher as u8]], &program).is_none());
    }
    assert!(Authority::derive(&[b"x", &[bump]], &program).is_some());
}

#[test]
fn keys_compare_by_their_bytes() {
    let mut bytes = [9u8; 32];
    assert_eq!(Pubkey::new_from_array(bytes), key(9));
    bytes[31] = 8;
    assert_ne!(Pubkey::new_from_array(bytes), key(9));
    bytes[31] = 9;
    bytes[0] = 8;
    assert_ne!(Pubkey::new_from_array(bytes), key(9));
    assert_eq!(Pubkey::default().to_bytes(), [0u8; 32]);
    assert!(Pubkey::default().is_default());
    assert!(!key(1).is_default());
    assert_eq!(key(3).to_bytes(), [3u8; 32]);
}

#[test]
fn text_is_cut_on_character_boundaries() {
    assert_eq!(truncate_str("hello", 10), "hello");
    assert_eq!(truncate_str("hello", 5), "hello");
    assert_eq!(truncate_str("hello", 4), "hell");
    assert_eq!(truncate_str("hello", 0), "");
    assert_eq!(truncate_str("", 3), "");
    // "é" takes two bytes, "€" three, "😀" four.
    assert_eq!(truncate_str("aé", 2), "a");
    assert_eq!(truncate_str("aé", 3), "aé");
    assert_eq!(truncate_str("€€", 5), "€");
    assert_eq!(truncate_str("€€", 6), "€€");
    assert_eq!(truncate_str("😀", 3), "");
    assert_eq!(truncate_str("a😀b", 4), "a");
    assert_eq!(truncate_str("a😀b", 5), "a😀");
}

#[test]
fn every_failure_has_its_message() {
    assert_eq!(AiNftError::InvalidFeeShare.message(), "Invalid fee share");
    assert_eq!(AiNftError::InvalidGasAmount.message(), "Invalid gas amount");
    assert_eq!(
        AiNftError::InsufficientCompute.message(),
        "Insufficient compute tokens. Please top up your agent"
    );
    assert_eq!(AiNftError::ExecutionClientNotActive.message(), "Execution client not active");
    assert_eq!(AiNftError::InactiveExecutionClient.message(), "Execution client not active");
    assert_eq!(AiNftError::InvalidExecutionClient.message(), "Invalid execution client");
    assert_eq!(AiNftError::ComputeMintNotInitialized.message(), "Compute mint not initialized");
    assert_eq!(AiNftError::Overflow.message(), "Overflow");
    assert_eq!(AiNftError::InvalidTokenOwner.message(), "InvalidTokenOwner");
    assert_eq!(AiNftError::MessageAlreadyAnswered.message(), "Message already answered");
    assert_eq!(AiNftError::InvalidConfigField.message(), "Invalid config field");
}
