//! A read-only view of the configuration document that the node reports.

use vstd::prelude::*;
use vstd::utf8::is_ascii_chars;
use crate::json::JsonValue;
use crate::text::decimal;
use crate::text::i64_text;
use crate::text::opt_text;
use crate::text::split_on;
use crate::text::split_text;
use crate::text::texts;

verus! {

/// What `str::to_lowercase` makes of a text.
pub uninterp spec fn lowercased(text: Seq<char>) -> Seq<char>;

/// `text` with each of `A` to `Z` replaced by its small letter.
pub open spec fn ascii_lowered(text: Seq<char>) -> Seq<char> {
    Seq::new(
        text.len(),
        |i: int|
            if 'A' <= text[i] && text[i] <= 'Z' {
                ((text[i] as u32) + 32) as char
            } else {
                text[i]
            },
    )
}

/// The keys that a dotted key stands for: the pieces between the dots of
/// the lower-cased key.
pub open spec fn key_path(key: Seq<char>) -> Seq<Seq<char>> {
    split_on(lowercased(key), '.')
}

/// Lower-cases a text. This is `str::to_lowercase`, which follows the
/// Unicode lower-case mapping; on a text of ASCII characters that mapping
/// replaces `A` to `Z` by `a` to `z` and nothing else.
#[verifier::external_body]
fn lowercase(text: &str) -> (lowered: String)
    ensures
        lowered@ == lowercased(text@),
        is_ascii_chars(text@) ==> lowered@ == ascii_lowered(text@),
{
    text.to_lowercase()
}

/// Why no Hermes contract could be named.
#[derive(Clone, Copy, PartialEq, Eq, Structural, Debug)]
pub enum ConfigError {
    MissingChainId,
    MissingChain1Id,
    MissingChain1Hermes,
    MissingChain2Id,
    MissingChain2Hermes,
    UnknownChain(i64),
}

impl ConfigError {
    /// The message of the error.
    pub open spec fn message(self) -> Seq<char> {
        match self {
            ConfigError::MissingChainId => "missing chain id"@,
            ConfigError::MissingChain1Id => "missing chain 1 id"@,
            ConfigError::MissingChain1Hermes => "missing chain 1 hermes id"@,
            ConfigError::MissingChain2Id => "missing chain 2 id"@,
            ConfigError::MissingChain2Hermes => "missing chain 2 hermes id"@,
            ConfigError::UnknownChain(chain_id) => "no hermes specified for chain "@ + decimal(
                chain_id as int,
            ),
        }
    }

    /// The message of the error, as text.
    pub fn to_string(&self) -> (text: String)
        ensures
            text@ == self.message(),
    {
        match self {
            ConfigError::MissingChainId => String::from_str("missing chain id"),
            ConfigError::MissingChain1Id => String::from_str("missing chain 1 id"),
            ConfigError::MissingChain1Hermes => String::from_str("missing chain 1 hermes id"),
            ConfigError::MissingChain2Id => String::from_str("missing chain 2 id"),
            ConfigError::MissingChain2Hermes => String::from_str("missing chain 2 hermes id"),
            ConfigError::UnknownChain(chain_id) => {
                let number = i64_text(*chain_id);
                String::from_str("no hermes specified for chain ").concat(number.as_str())
            },
        }
    }
}

/// The integer at a path of keys, if there is one.
pub open spec fn integer_at(data: JsonValue, path: Seq<Seq<char>>) -> Option<i64> {
    match data.descend(path) {
        Some(value) => value.integer(),
        None => None,
    }
}

/// The text at a path of keys, if there is one.
pub open spec fn text_at(data: JsonValue, path: Seq<Seq<char>>) -> Option<Seq<char>> {
    match data.descend(path) {
        Some(value) => value.text(),
        None => None,
    }
}

/// The truth value at a path of keys; `false` where there is none.
pub open spec fn flag_at(data: JsonValue, path: Seq<Seq<char>>) -> bool {
    match data.descend(path) {
        Some(value) => value.boolean() == Some(true),
        None => false,
    }
}

/// The Hermes contract that a configuration document names for its active
/// chain.
///
/// The active chain is the integer under `chain-id`. It is compared with
/// the id of chain `1` first and then with that of chain `2`; the first one
/// that matches gives the contract, the text under its `hermes`. The id of
/// chain `2` is read only where chain `1` does not match.
pub open spec fn hermes_choice(data: JsonValue) -> Result<Seq<char>, ConfigError> {
    let active = integer_at(data, seq!["chain-id"@]);
    let first = integer_at(data, seq!["chains"@, "1"@, "chainid"@]);
    let second = integer_at(data, seq!["chains"@, "2"@, "chainid"@]);
    if active is None {
        Err(ConfigError::MissingChainId)
    } else if first is None {
        Err(ConfigError::MissingChain1Id)
    } else if active == first {
        match text_at(data, seq!["chains"@, "1"@, "hermes"@]) {
            Some(hermes) => Ok(hermes),
            None => Err(ConfigError::MissingChain1Hermes),
        }
    } else if second is None {
        Err(ConfigError::MissingChain2Id)
    } else if active == second {
        match text_at(data, seq!["chains"@, "2"@, "hermes"@]) {
            Some(hermes) => Ok(hermes),
            None => Err(ConfigError::MissingChain2Hermes),
        }
    } else {
        Err(ConfigError::UnknownChain(active->0))
    }
}

/// The configuration document of a node.
pub struct RemoteConfigView {
    data: JsonValue,
}

impl View for RemoteConfigView {
    type V = JsonValue;

    closed spec fn view(&self) -> JsonValue {
        self.data
    }
}

/// Follows a path of keys from `data`, one object deeper with each key.
fn walk<'a>(data: &'a JsonValue, path: &Vec<String>) -> (found: Option<&'a JsonValue>)
    ensures
        match found {
            Some(value) => data.descend(texts(path@)) == Some(*value),
            None => data.descend(texts(path@)) is None,
        },
{
    let mut current = data;
    let mut i: usize = 0;
    assert(texts(path@).skip(0) =~= texts(path@));
    while i < path.len()
        invariant
            i <= path.len(),
            data.descend(texts(path@)) == current.descend(texts(path@).skip(i as int)),
        decreases path.len() - i,
    {
        assert(texts(path@).skip(i as int).drop_first() =~= texts(path@).skip(i + 1));
        match current.get(path[i].as_str()) {
            Some(inner) => {
                current = inner;
            },
            None => {
                return None;
            },
        }
        i += 1;
    }
    Some(current)
}

impl RemoteConfigView {
    /// A view of the object with the given members.
    pub fn new(data: Vec<(String, JsonValue)>) -> (view: RemoteConfigView)
        ensures
            view@ == JsonValue::Object(data),
    {
        RemoteConfigView { data: JsonValue::Object(data) }
    }

    /// The value under a dotted path, taken as it is written: the pieces
    /// between the dots are the keys, from the outermost object inwards.
    pub fn get_exact(&self, path: &str) -> (found: Option<&JsonValue>)
        ensures
            match found {
                Some(value) => self@.descend(split_on(path@, '.')) == Some(*value),
                None => self@.descend(split_on(path@, '.')) is None,
            },
    {
        let keys = split_text(path, '.');
        walk(&self.data, &keys)
    }

    /// The value under a dotted key. The key is lower-cased first; for a
    /// key of ASCII characters that turns `A` to `Z` into small letters and
    /// nothing else.
    pub fn get(&self, key: &str) -> (found: Option<&JsonValue>)
        ensures
            match found {
                Some(value) => self@.descend(key_path(key@)) == Some(*value),
                None => self@.descend(key_path(key@)) is None,
            },
            is_ascii_chars(key@) ==> key_path(key@) == split_on(ascii_lowered(key@), '.'),
    {
        let lowered = lowercase(key);
        self.get_exact(lowered.as_str())
    }

    /// The truth value under a dotted key; `false` where the key leads
    /// nowhere or to something that is no boolean.
    pub fn get_bool(&self, key: &str) -> (flag: bool)
        ensures
            flag == flag_at(self@, key_path(key@)),
            is_ascii_chars(key@) ==> key_path(key@) == split_on(ascii_lowered(key@), '.'),
    {
        match self.get(key) {
            Some(value) => match value.as_bool() {
                Some(flag) => flag,
                None => false,
            },
            None => false,
        }
    }

    /// The text under a dotted key.
    pub fn get_string(&self, key: &str) -> (text: Option<String>)
        ensures
            opt_text(text) == text_at(self@, key_path(key@)),
            is_ascii_chars(key@) ==> key_path(key@) == split_on(ascii_lowered(key@), '.'),
    {
        match self.get(key) {
            Some(value) => match value.as_str() {
                Some(text) => Some(text.to_owned()),
                None => None,
            },
            None => None,
        }
    }

    /// The integer under a dotted key.
    pub fn get_i64(&self, key: &str) -> (number: Option<i64>)
        ensures
            number == integer_at(self@, key_path(key@)),
            is_ascii_chars(key@) ==> key_path(key@) == split_on(ascii_lowered(key@), '.'),
    {
        match self.get(key) {
            Some(value) => value.as_i64(),
            None => None,
        }
    }

    /// The integer under a path of keys.
    fn integer_under(&self, path: &Vec<String>) -> (number: Option<i64>)
        ensures
            number == integer_at(self@, texts(path@)),
    {
        match walk(&self.data, path) {
            Some(value) => value.as_i64(),
            None => None,
        }
    }

    /// The text under a path of keys.
    fn text_under(&self, path: &Vec<String>) -> (text: Option<String>)
        ensures
            opt_text(text) == text_at(self@, texts(path@)),
    {
        match walk(&self.data, path) {
            Some(value) => match value.as_str() {
                Some(text) => Some(text.to_owned()),
                None => None,
            },
            None => None,
        }
    }

    /// The Hermes contract of the active chain.
    pub fn hermes_id(&self) -> (hermes: Result<String, ConfigError>)
        ensures
            match hermes {
                Ok(id) => hermes_choice(self@) == Ok::<Seq<char>, ConfigError>(id@),
                Err(error) => hermes_choice(self@) == Err::<Seq<char>, ConfigError>(error),
            },
    {
        let chain_id = match self.integer_under(&top_level("chain-id")) {
            Some(id) => id,
            None => {
                return Err(ConfigError::MissingChainId);
            },
        };
        let chain1_id = match self.integer_under(&chain_member("1", "chainid")) {
            Some(id) => id,
            None => {
                return Err(ConfigError::MissingChain1Id);
            },
        };
        if chain_id == chain1_id {
            return match self.text_under(&chain_member("1", "hermes")) {
                Some(id) => Ok(id),
                None => Err(ConfigError::MissingChain1Hermes),
            };
        }
        let chain2_id = match self.integer_under(&chain_member("2", "chainid")) {
            Some(id) => id,
            None => {
                return Err(ConfigError::MissingChain2Id);
            },
        };
        if chain_id == chain2_id {
            return match self.text_under(&chain_member("2", "hermes")) {
                Some(id) => Ok(id),
                None => Err(ConfigError::MissingChain2Hermes),
            };
        }
        Err(ConfigError::UnknownChain(chain_id))
    }
}

/// The path of a member of the document itself.
fn top_level(key: &str) -> (path: Vec<String>)
    ensures
        texts(path@) == seq![key@],
{
    let mut path: Vec<String> = Vec::new();
    path.push(key.to_owned());
    path
}

/// The path of a member of one chain: `chains`, the key of the chain, the
/// key of the member.
fn chain_member(chain: &str, key: &str) -> (path: Vec<String>)
    ensures
        texts(path@) == seq!["chains"@, chain@, key@],
{
    let mut path: Vec<String> = Vec::new();
    path.push(String::from_str("chains"));
    path.push(chain.to_owned());
    path.push(key.to_owned());
    path
}

} // verus!
