use crate::error::AiNftError;
use crate::pubkey::Pubkey;
use vstd::prelude::*;
use vstd::std_specs::convert::FromSpecImpl;
use vstd::string::StringSliceAdditionalSpecFns;
use vstd::utf8::encode_utf8;

verus! {

/// `bytes` laid into a field of `n` bytes: cut when longer, padded with
/// zeros when shorter.
pub open spec fn fixed_bytes(bytes: Seq<u8>, n: nat) -> Seq<u8> {
    Seq::new(
        n,
        |i: int|
            if i < bytes.len() {
                bytes[i]
            } else {
                0u8
            },
    )
}

/// The UTF-8 bytes of each text of a list.
pub open spec fn texts_bytes(texts: Seq<String>) -> Seq<Seq<u8>> {
    Seq::new(texts.len(), |i: int| encode_utf8(texts[i]@))
}

/// A table of `M` fields of `N` bytes as plain byte sequences.
pub open spec fn rows_view<const N: usize, const M: usize>(rows: [[u8; N]; M]) -> Seq<Seq<u8>> {
    Seq::new(M as nat, |r: int| rows@[r]@)
}

/// The first `m` of `texts` laid into `m` fields of `n` bytes each; fields
/// without a text are all zero.
pub open spec fn fixed_rows(texts: Seq<Seq<u8>>, n: nat, m: nat) -> Seq<Seq<u8>> {
    Seq::new(
        m,
        |r: int|
            if r < texts.len() {
                fixed_bytes(texts[r], n)
            } else {
                fixed_bytes(Seq::<u8>::empty(), n)
            },
    )
}

/// The table `rows` with its leading fields overwritten by `texts`, each
/// laid into `n` bytes; fields beyond the texts stay, and texts beyond the
/// table are dropped.
pub open spec fn replaced_rows(rows: Seq<Seq<u8>>, texts: Seq<Seq<u8>>, n: nat) -> Seq<Seq<u8>> {
    Seq::new(
        rows.len(),
        |r: int|
            if r < texts.len() {
                fixed_bytes(texts[r], n)
            } else {
                rows[r]
            },
    )
}

#[derive(Clone, Copy, Debug, PartialEq, Eq)]
pub struct VoiceSettings {
    pub model: [u8; 32],
}

impl From<VoiceSettingsInput> for VoiceSettings {
    fn from(input: VoiceSettingsInput) -> (settings: Self) {
        VoiceSettings { model: input.model }
    }
}

impl FromSpecImpl<VoiceSettingsInput> for VoiceSettings {
    open spec fn obeys_from_spec() -> bool {
        true
    }

    open spec fn from_spec(input: VoiceSettingsInput) -> Self {
        VoiceSettings { model: input.model }
    }
}

#[derive(Clone, Copy, Debug, PartialEq, Eq)]
pub struct Settings {
    pub voice: VoiceSettings,
}

impl From<SettingsInput> for Settings {
    fn from(input: SettingsInput) -> (settings: Self) {
        Settings { voice: VoiceSettings { model: input.voice.model } }
    }
}

impl FromSpecImpl<SettingsInput> for Settings {
    open spec fn obeys_from_spec() -> bool {
        true
    }

    open spec fn from_spec(input: SettingsInput) -> Self {
        Settings { voice: VoiceSettings { model: input.voice.model } }
    }
}

#[derive(Clone, Copy, Debug, PartialEq, Eq)]
pub struct StyleConfig {
    pub all: [[u8; 32]; 5],
    pub chat: [[u8; 32]; 5],
    pub post: [[u8; 32]; 5],
}

impl From<StyleConfigInput> for StyleConfig {
    fn from(input: StyleConfigInput) -> (style: Self) {
        StyleConfig { all: input.all, chat: input.chat, post: input.post }
    }
}

impl FromSpecImpl<StyleConfigInput> for StyleConfig {
    open spec fn obeys_from_spec() -> bool {
        true
    }

    open spec fn from_spec(input: StyleConfigInput) -> Self {
        StyleConfig { all: input.all, chat: input.chat, post: input.post }
    }
}

/// The personality of a character, stored in fields of fixed size.
#[derive(Clone, Copy, Debug, PartialEq, Eq)]
pub struct CharacterConfig {
    pub name: [u8; 32],
    /// Up to five clients of up to twenty bytes each.
    pub clients: [[u8; 20]; 5],
    pub model_provider: [u8; 20],
    pub settings: Settings,
    pub bio: [[u8; 32]; 5],
    pub lore: [[u8; 32]; 5],
    pub knowledge: [[u8; 32]; 5],
    pub topics: [[u8; 32]; 5],
    pub style: StyleConfig,
    pub adjectives: [[u8; 32]; 5],
    pub bump: u8,
    /// Who may change this record.
    pub authority: Pubkey,
}

/// Voice settings as a caller hands them in.
#[derive(Clone, Copy, Debug, PartialEq, Eq)]
pub struct VoiceSettingsInput {
    pub model: [u8; 32],
}

/// Settings as a caller hands them in.
#[derive(Clone, Copy, Debug, PartialEq, Eq)]
pub struct SettingsInput {
    pub voice: VoiceSettingsInput,
}

/// Style tables as a caller hands them in.
#[derive(Clone, Copy, Debug, PartialEq, Eq)]
pub struct StyleConfigInput {
    pub all: [[u8; 32]; 5],
    pub chat: [[u8; 32]; 5],
    pub post: [[u8; 32]; 5],
}

/// A personality as a caller hands it in, with texts of any length.
#[derive(Clone, Debug, PartialEq, Eq)]
pub struct CharacterConfigInput {
    pub name: String,
    pub clients: Vec<String>,
    pub model_provider: String,
    pub settings: SettingsInput,
    pub bio: Vec<String>,
    pub lore: Vec<String>,
    pub knowledge: Vec<String>,
    pub topics: Vec<String>,
    pub style: StyleConfigInput,
    pub adjectives: Vec<String>,
}

/// Overwrites the leading fields of a table of five with `texts`; texts
/// beyond the fifth are dropped.
fn replace_rows<const N: usize>(rows: [[u8; N]; 5], texts: &Vec<String>) -> (result: [[u8; N]; 5])
    ensures
        rows_view(result) == replaced_rows(rows_view(rows), texts_bytes(texts@), N as nat),
{
    let mut result = rows;
    let count: usize = if texts.len() < 5 {
        texts.len()
    } else {
        5
    };
    let mut i: usize = 0;
    while i < count
        invariant
            i <= count <= 5,
            count <= texts@.len(),
            forall|r: int|
                0 <= r < i ==> result@[r]@ == fixed_bytes(encode_utf8(texts@[r]@), N as nat),
            forall|r: int| i <= r < 5 ==> result@[r] == rows@[r],
        decreases count - i,
    {
        result[i] = CharacterConfig::string_to_fixed_bytes(texts[i].as_str());
        i += 1;
    }
    assert(rows_view(result) =~= replaced_rows(rows_view(rows), texts_bytes(texts@), N as nat));
    result
}

impl CharacterConfig {
    /// Lays a text into a field of `N` bytes: cut when longer, padded with
    /// zeros when shorter.
    pub fn string_to_fixed_bytes<const N: usize>(s: &str) -> (result: [u8; N])
        ensures
            result@ == fixed_bytes(s.spec_bytes(), N as nat),
    {
        let mut result = [0u8; N];
        let bytes = s.as_bytes();
        let len = if bytes.len() < N {
            bytes.len()
        } else {
            N
        };
        let mut i: usize = 0;
        while i < len
            invariant
                i <= len,
                len <= N,
                len <= bytes@.len(),
                bytes@ == s.spec_bytes(),
                forall|j: int| 0 <= j < i ==> result@[j] == bytes@[j],
                forall|j: int| i <= j < N ==> result@[j] == 0u8,
            decreases len - i,
        {
            result[i] = bytes[i];
            i += 1;
        }
        assert(result@ =~= fixed_bytes(s.spec_bytes(), N as nat));
        result
    }

    /// Lays the first `M` texts of a list into a table of `M` fields of `N`
    /// bytes; fields without a text are all zero.
    pub fn strings_to_fixed_bytes<const N: usize, const M: usize>(
        strings: &[String],
    ) -> (result: [[u8; N]; M])
        ensures
            rows_view(result) == fixed_rows(texts_bytes(strings@), N as nat, M as nat),
    {
        let mut result = [[0u8; N]; M];
        let count: usize = if strings.len() < M {
            strings.len()
        } else {
            M
        };
        let mut i: usize = 0;
        while i < count
            invariant
                i <= count <= M,
                count <= strings@.len(),
                forall|r: int|
                    0 <= r < i ==> result@[r]@ == fixed_bytes(
                        encode_utf8(strings@[r]@),
                        N as nat,
                    ),
                forall|r: int, j: int| i <= r < M && 0 <= j < N ==> result@[r]@[j] == 0u8,
            decreases count - i,
        {
            result[i] = Self::string_to_fixed_bytes(strings[i].as_str());
            i += 1;
        }
        assert forall|r: int| 0 <= r < M implies #[trigger] rows_view(result)[r] == fixed_rows(
            texts_bytes(strings@),
            N as nat,
            M as nat,
        )[r] by {
            if r >= count {
                assert(result@[r]@ =~= fixed_bytes(Seq::<u8>::empty(), N as nat));
                if r < strings@.len() {
                    assert(count == M);
                }
            }
        }
        assert(rows_view(result) =~= fixed_rows(texts_bytes(strings@), N as nat, M as nat));
        result
    }

    /// The stored form of a personality handed in by its `authority`: every
    /// text cut or padded to its field, every list cut to five entries.
    pub fn from_input(input: CharacterConfigInput, authority: &Pubkey, bump: u8) -> (config: Self)
        ensures
            config.name@ == fixed_bytes(encode_utf8(input.name@), 32),
            rows_view(config.clients) == fixed_rows(texts_bytes(input.clients@), 20, 5),
            config.model_provider@ == fixed_bytes(encode_utf8(input.model_provider@), 20),
            config.settings.voice.model == input.settings.voice.model,
            rows_view(config.bio) == fixed_rows(texts_bytes(input.bio@), 32, 5),
            rows_view(config.lore) == fixed_rows(texts_bytes(input.lore@), 32, 5),
            rows_view(config.knowledge) == fixed_rows(texts_bytes(input.knowledge@), 32, 5),
            rows_view(config.topics) == fixed_rows(texts_bytes(input.topics@), 32, 5),
            config.style == (StyleConfig {
                all: input.style.all,
                chat: input.style.chat,
                post: input.style.post,
            }),
            rows_view(config.adjectives) == fixed_rows(texts_bytes(input.adjectives@), 32, 5),
            config.bump == bump,
            config.authority == *authority,
    {
        CharacterConfig {
            name: Self::string_to_fixed_bytes(input.name.as_str()),
            clients: Self::strings_to_fixed_bytes(input.clients.as_slice()),
            model_provider: Self::string_to_fixed_bytes(input.model_provider.as_str()),
            settings: Settings::from(input.settings),
            bio: Self::strings_to_fixed_bytes(input.bio.as_slice()),
            lore: Self::strings_to_fixed_bytes(input.lore.as_slice()),
            knowledge: Self::strings_to_fixed_bytes(input.knowledge.as_slice()),
            topics: Self::strings_to_fixed_bytes(input.topics.as_slice()),
            style: StyleConfig::from(input.style),
            adjectives: Self::strings_to_fixed_bytes(input.adjectives.as_slice()),
            bump,
            authority: *authority,
        }
    }

    /// Replaces the name, cut or padded to 32 bytes.
    pub fn update_name(&mut self, name: String)
        ensures
            final(self).name@ == fixed_bytes(encode_utf8(name@), 32),
            *final(self) == (CharacterConfig { name: final(self).name, ..*old(self) }),
    {
        self.name = Self::string_to_fixed_bytes(name.as_str());
    }

    /// Overwrites the leading clients, each cut or padded to 20 bytes;
    /// entries beyond the fifth are dropped.
    pub fn update_clients(&mut self, clients: Vec<String>)
        ensures
            rows_view(final(self).clients) == replaced_rows(
                rows_view(old(self).clients),
                texts_bytes(clients@),
                20,
            ),
            *final(self) == (CharacterConfig { clients: final(self).clients, ..*old(self) }),
    {
        self.clients = replace_rows(self.clients, &clients);
    }

    /// Replaces the model provider, cut or padded to 20 bytes.
    pub fn update_model_provider(&mut self, provider: String)
        ensures
            final(self).model_provider@ == fixed_bytes(encode_utf8(provider@), 20),
            *final(self) == (CharacterConfig {
                model_provider: final(self).model_provider,
                ..*old(self)
            }),
    {
        self.model_provider = Self::string_to_fixed_bytes(provider.as_str());
    }

    pub fn update_voice_settings(&mut self, model: [u8; 32])
        ensures
            *final(self) == (CharacterConfig {
                settings: Settings { voice: VoiceSettings { model } },
                ..*old(self)
            }),
    {
        self.settings.voice.model = model;
    }

    /// Overwrites the leading entries of the biography, each cut or padded
    /// to 32 bytes; entries beyond the fifth are dropped.
    pub fn update_bio(&mut self, bio: Vec<String>)
        ensures
            rows_view(final(self).bio) == replaced_rows(
                rows_view(old(self).bio),
                texts_bytes(bio@),
                32,
            ),
            *final(self) == (CharacterConfig { bio: final(self).bio, ..*old(self) }),
    {
        self.bio = replace_rows(self.bio, &bio);
    }

    /// Overwrites the leading entries of the lore, each cut or padded to 32
    /// bytes; entries beyond the fifth are dropped.
    pub fn update_lore(&mut self, lore: Vec<String>)
        ensures
            rows_view(final(self).lore) == replaced_rows(
                rows_view(old(self).lore),
                texts_bytes(lore@),
                32,
            ),
            *final(self) == (CharacterConfig { lore: final(self).lore, ..*old(self) }),
    {
        self.lore = replace_rows(self.lore, &lore);
    }

    /// Overwrites the leading entries of the knowledge, each cut or padded
    /// to 32 bytes; entries beyond the fifth are dropped.
    pub fn update_knowledge(&mut self, knowledge: Vec<String>)
        ensures
            rows_view(final(self).knowledge) == replaced_rows(
                rows_view(old(self).knowledge),
                texts_bytes(knowledge@),
                32,
            ),
            *final(self) == (CharacterConfig { knowledge: final(self).knowledge, ..*old(self) }),
    {
        self.knowledge = replace_rows(self.knowledge, &knowledge);
    }

    /// Overwrites the leading topics, each cut or padded to 32 bytes;
    /// entries beyond the fifth are dropped.
    pub fn update_topics(&mut self, topics: Vec<String>)
        ensures
            rows_view(final(self).topics) == replaced_rows(
                rows_view(old(self).topics),
                texts_bytes(topics@),
                32,
            ),
            *final(self) == (CharacterConfig { topics: final(self).topics, ..*old(self) }),
    {
        self.topics = replace_rows(self.topics, &topics);
    }

    pub fn update_style(&mut self, style: StyleConfigInput)
        ensures
            *final(self) == (CharacterConfig {
                style: StyleConfig { all: style.all, chat: style.chat, post: style.post },
                ..*old(self)
            }),
    {
        self.style = StyleConfig::from(style);
    }

    /// Overwrites the leading adjectives, each cut or padded to 32 bytes;
    /// entries beyond the fifth are dropped.
    pub fn update_adjectives(&mut self, adjectives: Vec<String>)
        ensures
            rows_view(final(self).adjectives) == replaced_rows(
                rows_view(old(self).adjectives),
                texts_bytes(adjectives@),
                32,
            ),
            *final(self) == (CharacterConfig { adjectives: final(self).adjectives, ..*old(self) }),
    {
        self.adjectives = replace_rows(self.adjectives, &adjectives);
    }

    pub fn update_style_all(&mut self, style_all: [[u8; 32]; 5])
        ensures
            *final(self) == (CharacterConfig {
                style: StyleConfig { all: style_all, ..old(self).style },
                ..*old(self)
            }),
    {
        self.style.all = style_all;
    }

    pub fn update_style_chat(&mut self, style_chat: [[u8; 32]; 5])
        ensures
            *final(self) == (CharacterConfig {
                style: StyleConfig { chat: style_chat, ..old(self).style },
                ..*old(self)
            }),
    {
        self.style.chat = style_chat;
    }

    pub fn update_style_post(&mut self, style_post: [[u8; 32]; 5])
        ensures
            *final(self) == (CharacterConfig {
                style: StyleConfig { post: style_post, ..old(self).style },
                ..*old(self)
            }),
    {
        self.style.post = style_post;
    }

    /// Replaces the text field called `field_name`: `name` or
    /// `model_provider`. Any other name is refused with `InvalidFieldName`
    /// and changes nothing.
    pub fn update_field(
        &mut self,
        field_name: &str,
        value: String,
    ) -> (result: Result<(), AiNftError>)
        ensures
            field_name@ == "name"@ ==> result is Ok && final(self).name@ == fixed_bytes(
                encode_utf8(value@),
                32,
            ) && *final(self) == (CharacterConfig { name: final(self).name, ..*old(self) }),
            field_name@ != "name"@ && field_name@ == "model_provider"@ ==> result is Ok
                && final(self).model_provider@ == fixed_bytes(encode_utf8(value@), 20)
                && *final(self) == (CharacterConfig {
                model_provider: final(self).model_provider,
                ..*old(self)
            }),
            field_name@ != "name"@ && field_name@ != "model_provider"@ ==> result == Err::<
                (),
                AiNftError,
            >(AiNftError::InvalidFieldName) && *final(self) == *old(self),
    {
        let field = field_name.to_owned();
        if field == "name".to_owned() {
            self.update_name(value);
        } else if field == "model_provider".to_owned() {
            self.update_model_provider(value);
        } else {
            return Err(AiNftError::InvalidFieldName);
        }
        Ok(())
    }

    /// Whether `field_name` names one of the six list fields.
    pub open spec fn is_array_field(field_name: Seq<char>) -> bool {
        ||| field_name == "clients"@
        ||| field_name == "bio"@
        ||| field_name == "lore"@
        ||| field_name == "knowledge"@
        ||| field_name == "topics"@
        ||| field_name == "adjectives"@
    }

    /// Overwrites the leading entries of the list field called
    /// `field_name`: `clients`, `bio`, `lore`, `knowledge`, `topics` or
    /// `adjectives`. Any other name is refused with `InvalidFieldName` and
    /// changes nothing.
    pub fn update_array_field(
        &mut self,
        field_name: &str,
        values: Vec<String>,
    ) -> (result: Result<(), AiNftError>)
        ensures
            result is Ok <==> Self::is_array_field(field_name@),
            result is Err ==> result == Err::<(), AiNftError>(AiNftError::InvalidFieldName)
                && *final(self) == *old(self),
            field_name@ == "clients"@ ==> rows_view(final(self).clients) == replaced_rows(
                rows_view(old(self).clients),
                texts_bytes(values@),
                20,
            ) && *final(self) == (CharacterConfig { clients: final(self).clients, ..*old(self) }),
            field_name@ == "bio"@ ==> rows_view(final(self).bio) == replaced_rows(
                rows_view(old(self).bio),
                texts_bytes(values@),
                32,
            ) && *final(self) == (CharacterConfig { bio: final(self).bio, ..*old(self) }),
            field_name@ == "lore"@ ==> rows_view(final(self).lore) == replaced_rows(
                rows_view(old(self).lore),
                texts_bytes(values@),
                32,
            ) && *final(self) == (CharacterConfig { lore: final(self).lore, ..*old(self) }),
            field_name@ == "knowledge"@ ==> rows_view(final(self).knowledge) == replaced_rows(
                rows_view(old(self).knowledge),
                texts_bytes(values@),
                32,
            ) && *final(self) == (CharacterConfig {
                knowledge: final(self).knowledge,
                ..*old(self)
            }),
            field_name@ == "topics"@ ==> rows_view(final(self).topics) == replaced_rows(
                rows_view(old(self).topics),
                texts_bytes(values@),
                32,
            ) && *final(self) == (CharacterConfig { topics: final(self).topics, ..*old(self) }),
            field_name@ == "adjectives"@ ==> rows_view(final(self).adjectives) == replaced_rows(
                rows_view(old(self).adjectives),
                texts_bytes(values@),
                32,
            ) && *final(self) == (CharacterConfig {
                adjectives: final(self).adjectives,
                ..*old(self)
            }),
    {
        proof {
            reveal_strlit("clients");
            reveal_strlit("bio");
            reveal_strlit("lore");
            reveal_strlit("knowledge");
            reveal_strlit("topics");
            reveal_strlit("adjectives");
            assert("clients"@.len() == 7 && "bio"@.len() == 3 && "lore"@.len() == 4);
            assert("knowledge"@.len() == 9 && "topics"@.len() == 6 && "adjectives"@.len() == 10);
        }
        let field = field_name.to_owned();
        if field == "clients".to_owned() {
            self.update_clients(values);
        } else if field == "bio".to_owned() {
            self.update_bio(values);
        } else if field == "lore".to_owned() {
            self.update_lore(values);
        } else if field == "knowledge".to_owned() {
            self.update_knowledge(values);
        } else if field == "topics".to_owned() {
            self.update_topics(values);
        } else if field == "adjectives".to_owned() {
            self.update_adjectives(values);
        } else {
            return Err(AiNftError::InvalidFieldName);
        }
        Ok(())
    }

    /// A table of `M` fields of `N` bytes that holds `text` in its first
    /// field and zeros elsewhere.
    pub fn init_byte_array<const N: usize, const M: usize>(text: &str) -> (result: [[u8; N]; M])
        ensures
            rows_view(result) == fixed_rows(seq![text.spec_bytes()], N as nat, M as nat),
    {
        let mut result = [[0u8; N]; M];
        if M > 0 {
            result[0] = Self::string_to_fixed_bytes(text);
        }
        assert forall|r: int| 0 <= r < M implies #[trigger] rows_view(result)[r] == fixed_rows(
            seq![text.spec_bytes()],
            N as nat,
            M as nat,
        )[r] by {
            if r > 0 {
                assert(result@[r]@ =~= fixed_bytes(Seq::<u8>::empty(), N as nat));
            }
        }
        assert(rows_view(result) =~= fixed_rows(seq![text.spec_bytes()], N as nat, M as nat));
        result
    }

    /// The personality of a character that was given none: a helpful
    /// assistant, owned by nobody.
    pub fn default() -> (config: Self)
        ensures
            config.name@ == fixed_bytes("AI Assistant".spec_bytes(), 32),
            rows_view(config.clients) == fixed_rows(Seq::<Seq<u8>>::empty(), 20, 5),
            config.model_provider@ == fixed_bytes(Seq::<u8>::empty(), 20),
            config.settings.voice.model@ == fixed_bytes(Seq::<u8>::empty(), 32),
            rows_view(config.bio) == fixed_rows(seq!["A helpful AI assistant".spec_bytes()], 32, 5),
            rows_view(config.lore) == fixed_rows(
                seq!["Created to help users with their tasks".spec_bytes()],
                32,
                5,
            ),
            rows_view(config.knowledge) == fixed_rows(
                seq!["General assistance".spec_bytes()],
                32,
                5,
            ),
            rows_view(config.topics) == fixed_rows(Seq::<Seq<u8>>::empty(), 32, 5),
            rows_view(config.style.all) == fixed_rows(seq!["Helpful".spec_bytes()], 32, 5),
            rows_view(config.style.chat) == fixed_rows(seq!["Friendly".spec_bytes()], 32, 5),
            rows_view(config.style.post) == fixed_rows(seq!["Professional".spec_bytes()], 32, 5),
            rows_view(config.adjectives) == fixed_rows(seq!["Helpful".spec_bytes()], 32, 5),
            config.bump == 0,
            config.authority.is_zero(),
    {
        let config = CharacterConfig {
            name: Self::string_to_fixed_bytes("AI Assistant"),
            clients: [[0u8; 20]; 5],
            model_provider: [0u8; 20],
            settings: Settings { voice: VoiceSettings { model: [0u8; 32] } },
            bio: Self::init_byte_array("A helpful AI assistant"),
            lore: Self::init_byte_array("Created to help users with their tasks"),
            knowledge: Self::init_byte_array("General assistance"),
            topics: [[0u8; 32]; 5],
            style: StyleConfig {
                all: Self::init_byte_array("Helpful"),
                chat: Self::init_byte_array("Friendly"),
                post: Self::init_byte_array("Professional"),
            },
            adjectives: Self::init_byte_array("Helpful"),
            bump: 0,
            authority: Pubkey::default(),
        };
        assert(config.model_provider@ =~= fixed_bytes(Seq::<u8>::empty(), 20));
        assert(config.settings.voice.model@ =~= fixed_bytes(Seq::<u8>::empty(), 32));
        assert forall|r: int| 0 <= r < 5 implies #[trigger] rows_view(config.clients)[r]
            == fixed_rows(Seq::<Seq<u8>>::empty(), 20, 5)[r] by {
            assert(config.clients@[r]@ =~= fixed_bytes(Seq::<u8>::empty(), 20));
        }
        assert(rows_view(config.clients) =~= fixed_rows(Seq::<Seq<u8>>::empty(), 20, 5));
        assert forall|r: int| 0 <= r < 5 implies #[trigger] rows_view(config.topics)[r]
            == fixed_rows(Seq::<Seq<u8>>::empty(), 32, 5)[r] by {
            assert(config.topics@[r]@ =~= fixed_bytes(Seq::<u8>::empty(), 32));
        }
        assert(rows_view(config.topics) =~= fixed_rows(Seq::<Seq<u8>>::empty(), 32, 5));
        config
    }
}

} // verus!
