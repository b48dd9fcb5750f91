use ainft::error::AiNftError;
use ainft::ainft::{create_character_config, update_character_adjectives, update_character_bio, update_character_clients, update_character_knowledge, update_character_lore, update_character_model_provider, update_character_name, update_character_style, update_character_style_all, update_character_style_chat, update_character_style_post, update_character_topics, update_character_voice_settings};
use ainft::instructions::{CreateCharacterConfig, UpdateCharacterConfigField};
use ainft::program::{PaymentPolicy, Program};
use ainft::pubkey::Pubkey;
use ainft::state::{
    AiCharacterNFT, CharacterConfig, CharacterConfigInput, Settings, SettingsInput, StyleConfig,
    StyleConfigInput, VoiceSettings, VoiceSettingsInput,
};
use ainft::token::Account;

fn key(n: u8) -> Pubkey {
    Pubkey::new_from_array([n; 32])
}

fn derived(seeds: &[&[u8]], program: &Pubkey) -> (Pubkey, u8) {
    let id = anchor_lang::prelude::Pubkey::new_from_array(program.to_bytes());
    let (address, bump) = anchor_lang::prelude::Pubkey::find_program_address(seeds, &id);
    (Pubkey::new_from_array(address.to_bytes()), bump)
}

fn program() -> Program {
    Program { program_id: key(200), payment_policy: PaymentPolicy::ChargeAtSend }
}

fn padded<const N: usize>(text: &str) -> [u8; N] {
    let mut field = [0u8; N];
    let bytes = text.as_bytes();
    let len = bytes.len().min(N);
    field[..len].copy_from_slice(&bytes[..len]);
    field
}

fn texts(list: &[&str]) -> Vec<String> {
    list.iter().map(|s| s.to_string()).collect()
}

#[test]
fn text_is_laid_into_a_fixed_field() {
    assert_eq!(CharacterConfig::string_to_fixed_bytes::<8>("abc"), *b"abc\0\0\0\0\0");
    assert_eq!(CharacterConfig::string_to_fixed_bytes::<3>("abc"), *b"abc");
    assert_eq!(CharacterConfig::string_to_fixed_bytes::<2>("abc"), *b"ab");
    assert_eq!(CharacterConfig::string_to_fixed_bytes::<4>(""), [0u8; 4]);
    assert_eq!(CharacterConfig::string_to_fixed_bytes::<0>("abc"), [0u8; 0]);
    // A name of more than 32 bytes is cut, not refused.
    let long = "x".repeat(40);
    assert_eq!(CharacterConfig::string_to_fixed_bytes::<32>(&long), [b'x'; 32]);
    // The cut is by bytes: a character that straddles the end is split.
    assert_eq!(CharacterConfig::string_to_fixed_bytes::<2>("aé"), [b'a', 0xC3]);
}

#[test]
fn lists_are_laid_into_fixed_tables() {
    let table = CharacterConfig::strings_to_fixed_bytes::<4, 3>(&texts(&["ab", "cdefg"]));
    assert_eq!(table, [*b"ab\0\0", *b"cdef", [0u8; 4]]);
    let table = CharacterConfig::strings_to_fixed_bytes::<2, 2>(&texts(&["a", "b", "c"]));
    assert_eq!(table, [*b"a\0", *b"b\0"]);
    let table = CharacterConfig::strings_to_fixed_bytes::<2, 2>(&[]);
    assert_eq!(table, [[0u8; 2]; 2]);
    let table = CharacterConfig::init_byte_array::<4, 3>("hello");
    assert_eq!(table, [*b"hell", [0u8; 4], [0u8; 4]]);
    let table = CharacterConfig::init_byte_array::<4, 0>("hello");
    assert_eq!(table, [[0u8; 4]; 0]);
}

#[test]
fn the_default_personality_is_a_helpful_assistant() {
    let config = CharacterConfig::default();
    assert_eq!(config.name, padded::<32>("AI Assistant"));
    assert_eq!(config.clients, [[0u8; 20]; 5]);
    assert_eq!(config.model_provider, [0u8; 20]);
    assert_eq!(config.settings.voice.model, [0u8; 32]);
    let first = |text: &str| {
        let mut table = [[0u8; 32]; 5];
        table[0] = padded::<32>(text);
        table
    };
    assert_eq!(config.bio, first("A helpful AI assistant"));
    assert_eq!(config.lore, first("Created to help users with their tasks"));
    assert_eq!(&config.lore[0][..], &b"Created to help users with their"[..]);
    assert_eq!(config.knowledge, first("General assistance"));
    assert_eq!(config.topics, [[0u8; 32]; 5]);
    assert_eq!(config.style.all, first("Helpful"));
    assert_eq!(config.style.chat, first("Friendly"));
    assert_eq!(config.style.post, first("Professional"));
    assert_eq!(config.adjectives, first("Helpful"));
    assert_eq!(config.bump, 0);
    assert_eq!(config.authority, Pubkey::default());
}

fn input() -> CharacterConfigInput {
    CharacterConfigInput {
        name: "Ada Lovelace, Countess of Lovelace, mathematician".to_string(),
        clients: texts(&["discord", "a client with a name beyond twenty bytes", "x", "y", "z", "dropped"]),
        model_provider: "provider".to_string(),
        settings: SettingsInput { voice: VoiceSettingsInput { model: [7; 32] } },
        bio: texts(&["born 1815"]),
        lore: vec![],
        knowledge: texts(&["engines", "notes"]),
        topics: texts(&["a", "b", "c", "d", "e"]),
        style: StyleConfigInput { all: [[1; 32]; 5], chat: [[2; 32]; 5], post: [[3; 32]; 5] },
        adjectives: texts(&["curious"]),
    }
}

fn rows<const N: usize>(list: &[&str]) -> [[u8; N]; 5] {
    let mut table = [[0u8; N]; 5];
    for (i, text) in list.iter().enumerate().take(5) {
        table[i] = padded::<N>(text);
    }
    table
}

#[test]
fn from_input_cuts_and_pads_every_field() {
    let config = CharacterConfig::from_input(input(), &key(5), 251);
    assert_eq!(
        config,
        CharacterConfig {
            name: padded::<32>("Ada Lovelace, Countess of Lovelace, mathematician"),
            clients: rows::<20>(&["discord", "a client with a name beyond twenty bytes", "x", "y", "z"]),
            model_provider: padded::<20>("provider"),
            settings: Settings { voice: VoiceSettings { model: [7; 32] } },
            bio: rows::<32>(&["born 1815"]),
            lore: rows::<32>(&[]),
            knowledge: rows::<32>(&["engines", "notes"]),
            topics: rows::<32>(&["a", "b", "c", "d", "e"]),
            style: StyleConfig { all: [[1; 32]; 5], chat: [[2; 32]; 5], post: [[3; 32]; 5] },
            adjectives: rows::<32>(&["curious"]),
            bump: 251,
            authority: key(5),
        }
    );
    assert_eq!(&config.name[..], &b"Ada Lovelace, Countess of Lovela"[..]);
    assert_eq!(&config.clients[1][..], &b"a client with a name"[..]);
}

#[test]
fn conversions_keep_the_tables() {
    let voice = VoiceSettings::from(VoiceSettingsInput { model: [4; 32] });
    assert_eq!(voice, VoiceSettings { model: [4; 32] });
    let settings = Settings::from(SettingsInput { voice: VoiceSettingsInput { model: [5; 32] } });
    assert_eq!(settings, Settings { voice: VoiceSettings { model: [5; 32] } });
    let style = StyleConfig::from(StyleConfigInput { all: [[1; 32]; 5], chat: [[2; 32]; 5], post: [[3; 32]; 5] });
    assert_eq!(style, StyleConfig { all: [[1; 32]; 5], chat: [[2; 32]; 5], post: [[3; 32]; 5] });
}

#[test]
fn updates_overwrite_leading_entries_and_keep_the_rest() {
    let mut config = CharacterConfig::from_input(input(), &key(5), 251);
    let before = config;

    config.update_name("Grace".to_string());
    assert_eq!(config.name, padded::<32>("Grace"));
    config.update_model_provider("a provider with a very long name".to_string());
    assert_eq!(&config.model_provider[..], &b"a provider with a ve"[..]);
    config.update_voice_settings([9; 32]);
    assert_eq!(config.settings.voice.model, [9; 32]);

    config.update_topics(texts(&["z"]));
    assert_eq!(config.topics, rows::<32>(&["z", "b", "c", "d", "e"]));
    config.update_bio(texts(&["one", "two"]));
    assert_eq!(config.bio, rows::<32>(&["one", "two"]));
    config.update_lore(texts(&["l"]));
    assert_eq!(config.lore, rows::<32>(&["l"]));
    config.update_knowledge(vec![]);
    assert_eq!(config.knowledge, before.knowledge);
    config.update_adjectives(texts(&["1", "2", "3", "4", "5", "6", "7"]));
    assert_eq!(config.adjectives, rows::<32>(&["1", "2", "3", "4", "5"]));
    config.update_clients(texts(&["telegram"]));
    assert_eq!(
        config.clients,
        rows::<20>(&["telegram", "a client with a name beyond twenty bytes", "x", "y", "z"])
    );

    config.update_style(StyleConfigInput { all: [[4; 32]; 5], chat: [[5; 32]; 5], post: [[6; 32]; 5] });
    assert_eq!(config.style, StyleConfig { all: [[4; 32]; 5], chat: [[5; 32]; 5], post: [[6; 32]; 5] });
    config.update_style_all([[7; 32]; 5]);
    config.update_style_chat([[8; 32]; 5]);
    config.update_style_post([[9; 32]; 5]);
    assert_eq!(config.style, StyleConfig { all: [[7; 32]; 5], chat: [[8; 32]; 5], post: [[9; 32]; 5] });
    assert_eq!(config.bump, 251);
    assert_eq!(config.authority, key(5));
}

#[test]
fn fields_are_updated_by_name() {
    let mut config = CharacterConfig::default();
    assert_eq!(config.update_field("name", "Ada".to_string()), Ok(()));
    assert_eq!(config.name, padded::<32>("Ada"));
    assert_eq!(config.update_field("model_provider", "p".to_string()), Ok(()));
    assert_eq!(config.model_provider, padded::<20>("p"));
    let before = config;
    assert_eq!(config.update_field("bio", "x".to_string()), Err(AiNftError::InvalidFieldName));
    assert_eq!(config.update_field("", "x".to_string()), Err(AiNftError::InvalidFieldName));
    assert_eq!(config.update_field("Name", "x".to_string()), Err(AiNftError::InvalidFieldName));
    assert_eq!(config, before);

    for (field, width) in
        [("clients", 20usize), ("bio", 32), ("lore", 32), ("knowledge", 32), ("topics", 32), ("adjectives", 32)]
    {
        let mut config = CharacterConfig::default();
        assert_eq!(config.update_array_field(field, texts(&["first", "second"])), Ok(()));
        let table: Vec<Vec<u8>> = match field {
            "clients" => config.clients.iter().map(|r| r.to_vec()).collect(),
            "bio" => config.bio.iter().map(|r| r.to_vec()).collect(),
            "lore" => config.lore.iter().map(|r| r.to_vec()).collect(),
            "knowledge" => config.knowledge.iter().map(|r| r.to_vec()).collect(),
            "topics" => config.topics.iter().map(|r| r.to_vec()).collect(),
            _ => config.adjectives.iter().map(|r| r.to_vec()).collect(),
        };
        assert_eq!(table[0].len(), width);
        assert_eq!(&table[0][..5], b"first");
        assert_eq!(&table[1][..6], b"second");
        assert!(table[2].iter().all(|b| *b == 0));
    }
    let mut config = CharacterConfig::default();
    let before = config;
    assert_eq!(config.update_array_field("name", texts(&["x"])), Err(AiNftError::InvalidFieldName));
    assert_eq!(config.update_array_field("style", texts(&["x"])), Err(AiNftError::InvalidFieldName));
    assert_eq!(config, before);
}

#[test]
fn a_character_record_keeps_its_links() {
    let mut character = AiCharacterNFT::try_new(&key(1), &key(2), "Ada", None, Some(key(3)), &key(4), 250);
    assert_eq!(
        character,
        AiCharacterNFT {
            app_ai_nft_mint: key(1),
            character_nft_mint: key(2),
            name: padded::<32>("Ada"),
            character_config_pubkey: key(4),
            message_count: 0,
            total_processed: 0,
            compute_token_account: key(3),
            execution_client: Pubkey::default(),
            bump: [250],
            is_preminted: false,
            is_minted: false,
        }
    );
    let seeds = character.as_seeds();
    assert_eq!(seeds[0], b"ainft");
    assert_eq!(seeds[1], &[2u8; 32][..]);
    assert_eq!(seeds[2], &[250u8][..]);

    character.update_message_count(9);
    character.set_preminted(true);
    character.set_minted(true);
    assert_eq!(character.update_total_processed(), Ok(()));
    character.set(&key(11), &key(12), &"n".repeat(33), &key(13), key(14), &key(15), 249);
    assert_eq!(
        character,
        AiCharacterNFT {
            app_ai_nft_mint: key(11),
            character_nft_mint: key(12),
            name: [b'n'; 32],
            character_config_pubkey: key(15),
            message_count: 9,
            total_processed: 0,
            compute_token_account: key(14),
            execution_client: key(13),
            bump: [249],
            is_preminted: true,
            is_minted: true,
        }
    );
    character.update_character_config_pubkey(key(21));
    character.update_compute_token_account(key(22));
    character.update_execution_client(key(23));
    assert_eq!(character.character_config_pubkey, key(21));
    assert_eq!(character.compute_token_account, key(22));
    assert_eq!(character.execution_client, key(23));
    character.total_processed = u64::MAX;
    let before = character.clone();
    assert_eq!(character.update_total_processed(), Err(AiNftError::Overflow));
    assert_eq!(character, before);
}

fn config_slot(owner: Pubkey, id: &str) -> (Pubkey, u8) {
    derived(&[b"character_config", &owner.to_bytes(), id.as_bytes()], &program().program_id)
}

#[test]
fn a_personality_is_created_once_at_its_derived_address() {
    let owner = key(5);
    let (slot, bump) = config_slot(owner, "ada");
    let mut ctx = CreateCharacterConfig {
        character_config: Account { key: slot, data: None },
        character_config_bump: bump,
        authority: owner,
    };
    let event = create_character_config(&mut ctx, &program(), "ada".to_string(), input()).unwrap();
    assert_eq!(event.character_config, slot);
    assert_eq!(event.authority, owner);
    assert_eq!(ctx.character_config.data, Some(CharacterConfig::from_input(input(), &owner, bump)));

    let before = ctx.clone();
    assert_eq!(
        create_character_config(&mut ctx, &program(), "ada".to_string(), input()).unwrap_err(),
        AiNftError::InvalidConfigField
    );
    assert_eq!(ctx, before);

    let mut ctx = CreateCharacterConfig {
        character_config: Account { key: slot, data: None },
        character_config_bump: bump,
        authority: owner,
    };
    assert_eq!(
        create_character_config(&mut ctx, &program(), "eve".to_string(), input()).unwrap_err(),
        AiNftError::InvalidConfigField
    );
    assert!(ctx.character_config.data.is_none());
}

fn field_ctx(owner: Pubkey, id: &str) -> UpdateCharacterConfigField {
    let (slot, bump) = config_slot(owner, id);
    UpdateCharacterConfigField {
        character_config: Account { key: slot, data: CharacterConfig::from_input(input(), &owner, bump) },
        authority: owner,
    }
}

#[test]
fn the_owner_changes_each_field_of_a_personality() {
    let owner = key(5);
    let id = || "ada".to_string();
    let p = program();
    let mut ctx = field_ctx(owner, "ada");
    let mut expected = ctx.character_config.data;

    update_character_name(&mut ctx, &p, id(), "Grace".to_string()).unwrap();
    expected.update_name("Grace".to_string());
    update_character_clients(&mut ctx, &p, id(), texts(&["web"])).unwrap();
    expected.update_clients(texts(&["web"]));
    update_character_model_provider(&mut ctx, &p, id(), "mp".to_string()).unwrap();
    expected.update_model_provider("mp".to_string());
    update_character_voice_settings(&mut ctx, &p, id(), [3; 32]).unwrap();
    expected.update_voice_settings([3; 32]);
    update_character_bio(&mut ctx, &p, id(), texts(&["b"])).unwrap();
    expected.update_bio(texts(&["b"]));
    update_character_lore(&mut ctx, &p, id(), texts(&["l"])).unwrap();
    expected.update_lore(texts(&["l"]));
    update_character_knowledge(&mut ctx, &p, id(), texts(&["k"])).unwrap();
    expected.update_knowledge(texts(&["k"]));
    update_character_topics(&mut ctx, &p, id(), texts(&["t"])).unwrap();
    expected.update_topics(texts(&["t"]));
    let style = StyleConfigInput { all: [[4; 32]; 5], chat: [[5; 32]; 5], post: [[6; 32]; 5] };
    update_character_style(&mut ctx, &p, id(), style).unwrap();
    expected.update_style(style);
    update_character_adjectives(&mut ctx, &p, id(), texts(&["adj"])).unwrap();
    expected.update_adjectives(texts(&["adj"]));
    assert_eq!(ctx.character_config.data, expected);
    assert_eq!(ctx.character_config.data.name, padded::<32>("Grace"));
    assert_eq!(ctx.character_config.data.bio[0], padded::<32>("b"));

    update_character_style_all(&mut ctx, &p, id(), [[7; 32]; 5]).unwrap();
    update_character_style_chat(&mut ctx, &p, id(), [[8; 32]; 5]).unwrap();
    update_character_style_post(&mut ctx, &p, id(), [[9; 32]; 5]).unwrap();
    assert_eq!(
        ctx.character_config.data.style,
        StyleConfig { all: [[7; 32]; 5], chat: [[8; 32]; 5], post: [[9; 32]; 5] }
    );
}

#[test]
fn nobody_else_changes_a_personality() {
    let p = program();
    let mut ctx = field_ctx(key(5), "ada");
    ctx.authority = key(6);
    let before = ctx.clone();
    let refused = Err(AiNftError::UnauthorizedConfigUpdate);
    let id = || "ada".to_string();
    assert_eq!(update_character_name(&mut ctx, &p, id(), "x".to_string()), refused);
    assert_eq!(update_character_clients(&mut ctx, &p, id(), vec![]), refused);
    assert_eq!(update_character_model_provider(&mut ctx, &p, id(), "x".to_string()), refused);
    assert_eq!(update_character_voice_settings(&mut ctx, &p, id(), [1; 32]), refused);
    assert_eq!(update_character_bio(&mut ctx, &p, id(), texts(&["x"])), refused);
    assert_eq!(update_character_lore(&mut ctx, &p, id(), texts(&["x"])), refused);
    assert_eq!(update_character_knowledge(&mut ctx, &p, id(), texts(&["x"])), refused);
    assert_eq!(update_character_topics(&mut ctx, &p, id(), texts(&["x"])), refused);
    let style = StyleConfigInput { all: [[4; 32]; 5], chat: [[5; 32]; 5], post: [[6; 32]; 5] };
    assert_eq!(update_character_style(&mut ctx, &p, id(), style), refused);
    assert_eq!(update_character_adjectives(&mut ctx, &p, id(), texts(&["x"])), refused);
    assert_eq!(update_character_style_all(&mut ctx, &p, id(), [[7; 32]; 5]), refused);
    assert_eq!(update_character_style_chat(&mut ctx, &p, id(), [[7; 32]; 5]), refused);
    assert_eq!(update_character_style_post(&mut ctx, &p, id(), [[7; 32]; 5]), refused);
    assert_eq!(ctx, before);

    // The right owner under the wrong name is refused as well.
    let mut ctx = field_ctx(key(5), "ada");
    assert_eq!(update_character_name(&mut ctx, &p, "eve".to_string(), "x".to_string()), refused);
}
