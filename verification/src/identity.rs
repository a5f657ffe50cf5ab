//! Identities of the consumer: addresses, keystores and where they are
//! kept.

use vstd::prelude::*;
use vstd::slice::slice_subrange;
use vstd::slice::slice_to_vec;
use vstd::string::StringSliceAdditionalSpecFns;
use vstd::utf8::encode_utf8;
use vstd::utf8::is_ascii_chars_encode_utf8;
use crate::json::json_parsed;
use crate::json::parse_json;
use crate::json::JsonValue;
use crate::text::glue;
use crate::text::texts;

verus! {

/// The number of bytes of an address.
pub const ADDRESS_LEN: usize = 20;

/// The address of an identity: twenty bytes.
pub struct Address {
    bytes: Vec<u8>,
}

impl View for Address {
    type V = Seq<u8>;

    closed spec fn view(&self) -> Seq<u8> {
        self.bytes@
    }
}

/// An identity that the consumer can act as.
pub struct Identity {
    address: Address,
    path: String,
}

/// Why an identity could not be imported or loaded.
#[derive(Debug, PartialEq, Eq)]
pub enum IdentityError {
    /// The keystore is no JSON text.
    InvalidJson,
    /// The keystore is JSON, but no object.
    NotAnObject,
    /// The keystore names no address and no password was given to derive
    /// one.
    MissingAddress,
    /// The address of the keystore is no hexadecimal text.
    AddressNotHex,
    /// No keystore is stored under the name.
    MissingIdentity(String),
    /// No password was given for a keystore that needs one.
    PasswordMissing,
}

impl IdentityError {
    /// The message of the error.
    pub open spec fn message(self) -> Seq<char> {
        match self {
            IdentityError::InvalidJson => "keystore is not valid JSON"@,
            IdentityError::NotAnObject => "keystore should be a JSON object"@,
            IdentityError::MissingAddress =>
                "keystore is missing `address` field; supply a password so it can be derived"@,
            IdentityError::AddressNotHex => "decode keystore address"@,
            IdentityError::MissingIdentity(name) => "identity `"@ + name@
                + "` is missing; import it with `myst-consumer-rs identities import`"@,
            IdentityError::PasswordMissing => "keystore password missing"@,
        }
    }

    /// The message of the error, as text.
    pub fn to_string(&self) -> (text: String)
        ensures
            text@ == self.message(),
    {
        match self {
            IdentityError::InvalidJson => String::from_str("keystore is not valid JSON"),
            IdentityError::NotAnObject => String::from_str("keystore should be a JSON object"),
            IdentityError::MissingAddress => String::from_str(
                "keystore is missing `address` field; supply a password so it can be derived",
            ),
            IdentityError::AddressNotHex => String::from_str("decode keystore address"),
            IdentityError::MissingIdentity(name) => glue("identity `", name.as_str()).concat(
                "` is missing; import it with `myst-consumer-rs identities import`",
            ),
            IdentityError::PasswordMissing => String::from_str("keystore password missing"),
        }
    }
}

/// The value of a hexadecimal digit given as an ASCII byte, in either case.
pub open spec fn hex_digit_value(b: u8) -> Option<int> {
    if 48 <= b <= 57 {
        Some(b - 48)
    } else if 97 <= b <= 102 {
        Some(b - 97 + 10)
    } else if 65 <= b <= 70 {
        Some(b - 65 + 10)
    } else {
        None
    }
}

/// Whether `text` is hexadecimal: an even number of digits and nothing
/// else.
pub open spec fn is_hex_text(text: Seq<u8>) -> bool {
    &&& text.len() % 2 == 0
    &&& forall|i: int| 0 <= i < text.len() ==> hex_digit_value(#[trigger] text[i]) is Some
}

/// The bytes that a hexadecimal text stands for: two digits a byte, the
/// high digit first.
pub open spec fn hex_bytes(text: Seq<u8>) -> Seq<u8> {
    Seq::new(
        text.len() / 2,
        |i: int|
            (hex_digit_value(text[2 * i])->0 * 16 + hex_digit_value(text[2 * i + 1])->0) as u8,
    )
}

/// `hex::FromHexError`, the reason for which a text is no hexadecimal.
#[verifier::external_type_specification]
#[verifier::external_body]
pub struct ExFromHexError(hex::FromHexError);

/// Decodes hexadecimal text. This is `hex::decode`: it gives the bytes of a
/// text of an even number of hexadecimal digits, and fails on every other
/// text.
#[verifier::external_body]
fn hex_decode(text: &[u8]) -> (decoded: Result<Vec<u8>, hex::FromHexError>)
    ensures
        decoded is Ok <==> is_hex_text(text@),
        decoded is Ok ==> decoded->Ok_0@ == hex_bytes(text@),
{
    hex::decode(text)
}

/// The character of a hexadecimal digit, in lower case.
pub open spec fn hex_symbol(v: int) -> char {
    if v < 10 {
        (48 + v) as char
    } else {
        (87 + v) as char
    }
}

/// Bytes in lower-case hexadecimal, two digits a byte.
pub open spec fn lower_hex(bytes: Seq<u8>) -> Seq<char>
    decreases bytes.len(),
{
    if bytes.len() == 0 {
        Seq::empty()
    } else {
        lower_hex(bytes.drop_last()) + seq![
            hex_symbol(bytes.last() as int / 16),
            hex_symbol(bytes.last() as int % 16),
        ]
    }
}

/// One hexadecimal digit as text.
fn hex_digit_text(d: u8) -> (text: &'static str)
    requires
        d < 16,
    ensures
        text@ == seq![hex_symbol(d as int)],
{
    proof {
        reveal_strlit("0");
        reveal_strlit("1");
        reveal_strlit("2");
        reveal_strlit("3");
        reveal_strlit("4");
        reveal_strlit("5");
        reveal_strlit("6");
        reveal_strlit("7");
        reveal_strlit("8");
        reveal_strlit("9");
        reveal_strlit("a");
        reveal_strlit("b");
        reveal_strlit("c");
        reveal_strlit("d");
        reveal_strlit("e");
        reveal_strlit("f");
    }
    if d == 0 {
        "0"
    } else if d == 1 {
        "1"
    } else if d == 2 {
        "2"
    } else if d == 3 {
        "3"
    } else if d == 4 {
        "4"
    } else if d == 5 {
        "5"
    } else if d == 6 {
        "6"
    } else if d == 7 {
        "7"
    } else if d == 8 {
        "8"
    } else if d == 9 {
        "9"
    } else if d == 10 {
        "a"
    } else if d == 11 {
        "b"
    } else if d == 12 {
        "c"
    } else if d == 13 {
        "d"
    } else if d == 14 {
        "e"
    } else {
        "f"
    }
}

impl Address {
    /// Every address has twenty bytes.
    #[verifier::type_invariant]
    closed spec fn twenty_bytes(self) -> bool {
        self.bytes@.len() == ADDRESS_LEN
    }

    /// The address with the given bytes.
    pub fn from_slice(bytes: &[u8]) -> (address: Address)
        requires
            bytes@.len() == ADDRESS_LEN,
        ensures
            address@ == bytes@,
    {
        Address { bytes: slice_to_vec(bytes) }
    }

    /// The bytes of the address, twenty of them.
    pub fn as_bytes(&self) -> (bytes: &[u8])
        ensures
            bytes@ == self@,
            bytes@.len() == ADDRESS_LEN,
    {
        proof {
            use_type_invariant(self);
        }
        self.bytes.as_slice()
    }
}

/// The address as it is written: `0x` and the bytes in lower-case
/// hexadecimal.
pub open spec fn address_text(address: Seq<u8>) -> Seq<char> {
    "0x"@ + lower_hex(address)
}

impl Identity {
    /// The address of the identity.
    pub closed spec fn address(self) -> Seq<u8> {
        self.address@
    }

    /// Where the keystore of the identity is kept.
    pub closed spec fn location(self) -> Seq<char> {
        self.path@
    }

    /// The identity with the given address whose keystore is kept at
    /// `path`.
    pub fn new(address: Address, path: String) -> (identity: Identity)
        ensures
            identity.address() == address@,
            identity.location() == path@,
    {
        Identity { address, path }
    }

    /// The address of the identity as it is written.
    pub fn address_hex(&self) -> (text: String)
        ensures
            text@ == address_text(self.address()),
    {
        let bytes = self.address.as_bytes();
        let mut text = String::from_str("0x");
        let mut i: usize = 0;
        while i < bytes.len()
            invariant
                i <= bytes.len(),
                bytes@ == self.address(),
                text@ == "0x"@ + lower_hex(bytes@.take(i as int)),
            decreases bytes.len() - i,
        {
            let byte = bytes[i];
            text.append(hex_digit_text(byte / 16));
            text.append(hex_digit_text(byte % 16));
            assert(bytes@.take(i + 1).drop_last() =~= bytes@.take(i as int));
            i += 1;
        }
        assert(bytes@.take(i as int) =~= bytes@);
        text
    }

    /// Where the keystore of the identity is kept.
    pub fn path(&self) -> (path: &str)
        ensures
            path@ == self.location(),
    {
        self.path.as_str()
    }
}

/// The directory under the home directory in which everything is kept.
pub open spec fn store_dir_text() -> Seq<char> {
    ".myst"@
}

/// The directory under the store in which keystores are kept.
pub open spec fn identity_folder_text() -> Seq<char> {
    "identities"@
}

/// Where the keystore of the identity `name` is kept, as the path pieces
/// below the home directory: the store, the identity folder, and the name
/// with `.json` behind it.
pub fn keystore_location(name: &str) -> (pieces: Vec<String>)
    ensures
        texts(pieces@) == seq![store_dir_text(), identity_folder_text(), name@ + ".json"@],
{
    let mut pieces: Vec<String> = Vec::new();
    pieces.push(String::from_str(".myst"));
    pieces.push(String::from_str("identities"));
    pieces.push(glue(name, ".json"));
    pieces
}

/// What a keystore text is taken for: its document where it is a JSON
/// object, and the reason where it is not.
pub open spec fn keystore_document(keystore_json: Seq<u8>) -> Result<JsonValue, IdentityError> {
    match json_parsed(keystore_json) {
        Ok(document) => if document is Object {
            Ok(document)
        } else {
            Err(IdentityError::NotAnObject)
        },
        Err(_) => Err(IdentityError::InvalidJson),
    }
}

/// Reads a parsed keystore as one: it has to be a JSON object.
pub fn accept_keystore(parsed: Result<JsonValue, String>) -> (document: Result<
    JsonValue,
    IdentityError,
>)
    ensures
        match parsed {
            Ok(value) => if value is Object {
                document == Ok::<JsonValue, IdentityError>(value)
            } else {
                document == Err::<JsonValue, IdentityError>(IdentityError::NotAnObject)
            },
            Err(_) => document == Err::<JsonValue, IdentityError>(IdentityError::InvalidJson),
        },
{
    match parsed {
        Ok(value) => {
            if value.is_object() {
                Ok(value)
            } else {
                Err(IdentityError::NotAnObject)
            }
        },
        Err(_) => Err(IdentityError::InvalidJson),
    }
}

/// Checks that a keystore is the text of a JSON object, and gives the
/// object.
pub fn check_keystore(keystore_json: &str) -> (document: Result<JsonValue, IdentityError>)
    ensures
        document == keystore_document(keystore_json.spec_bytes()),
{
    accept_keystore(parse_json(keystore_json.as_bytes()))
}

/// `text` without a leading `0x`.
pub open spec fn without_prefix(text: Seq<u8>) -> Seq<u8> {
    if text.len() >= 2 && text[0] == 48 && text[1] == 120 {
        text.skip(2)
    } else {
        text
    }
}

/// The bytes of the address that a keystore names.
///
/// The address is the text of the member `address`, with or without `0x`
/// in front, in hexadecimal.
pub open spec fn keystore_address(parsed: JsonValue) -> Result<Seq<u8>, IdentityError> {
    match parsed.member("address"@) {
        Some(JsonValue::Text(address)) => {
            let digits = without_prefix(encode_utf8(address@));
            if is_hex_text(digits) {
                Ok(hex_bytes(digits))
            } else {
                Err(IdentityError::AddressNotHex)
            }
        },
        _ => Err(IdentityError::MissingAddress),
    }
}

/// Reads the bytes of the address that a keystore names.
pub fn keystore_address_bytes(parsed: &JsonValue) -> (address: Result<Vec<u8>, IdentityError>)
    ensures
        match address {
            Ok(bytes) => keystore_address(*parsed) == Ok::<Seq<u8>, IdentityError>(bytes@),
            Err(error) => keystore_address(*parsed) == Err::<Seq<u8>, IdentityError>(error),
        },
{
    let text = match parsed.get("address") {
        Some(value) => match value.as_str() {
            Some(text) => text,
            None => {
                return Err(IdentityError::MissingAddress);
            },
        },
        None => {
            return Err(IdentityError::MissingAddress);
        },
    };
    let raw = text.as_bytes();
    let digits = if raw.len() >= 2 && raw[0] == 48 && raw[1] == 120 {
        slice_subrange(raw, 2, raw.len())
    } else {
        raw
    };
    match hex_decode(digits) {
        Ok(bytes) => Ok(bytes),
        Err(_) => Err(IdentityError::AddressNotHex),
    }
}

/// The address of an identity: that of its unlocked wallet where there is
/// one, else the one that the keystore names.
pub open spec fn address_choice(parsed: JsonValue, wallet: Option<Seq<u8>>) -> Result<
    Seq<u8>,
    IdentityError,
> {
    match wallet {
        Some(address) => Ok(address),
        None => keystore_address(parsed),
    }
}

/// The address of `wallet`, if there is one.
pub open spec fn opt_address(wallet: Option<Address>) -> Option<Seq<u8>> {
    match wallet {
        Some(address) => Some(address@),
        None => None,
    }
}

/// Settles the address of an identity.
///
/// An address that the keystore names has to be twenty bytes long.
pub fn extract_address(parsed: &JsonValue, wallet: Option<Address>) -> (address: Result<
    Address,
    IdentityError,
>)
    requires
        wallet is None && keystore_address(*parsed) is Ok ==> keystore_address(*parsed)->Ok_0.len()
            == ADDRESS_LEN,
    ensures
        match address {
            Ok(found) => address_choice(*parsed, opt_address(wallet)) == Ok::<
                Seq<u8>,
                IdentityError,
            >(found@),
            Err(error) => address_choice(*parsed, opt_address(wallet)) == Err::<
                Seq<u8>,
                IdentityError,
            >(error),
        },
{
    if let Some(address) = wallet {
        return Ok(address);
    }
    match keystore_address_bytes(parsed) {
        Ok(bytes) => Ok(Address::from_slice(bytes.as_slice())),
        Err(error) => Err(error),
    }
}

/// Checks that the identity `name` can be loaded, and gives the password
/// to unlock it with. A keystore that is not there is said first; with the
/// keystore there, a password has to be given.
pub fn check_load<'a>(name: &str, keystore_exists: bool, password: Option<&'a str>) -> (checked:
    Result<&'a str, IdentityError>)
    ensures
        !keystore_exists ==> (checked matches Err(IdentityError::MissingIdentity(missing))
            && missing@ == name@),
        keystore_exists && password is None ==> checked == Err::<&str, IdentityError>(
            IdentityError::PasswordMissing,
        ),
        keystore_exists && password is Some ==> checked == Ok::<&str, IdentityError>(
            password->0,
        ),
{
    if !keystore_exists {
        return Err(IdentityError::MissingIdentity(name.to_owned()));
    }
    match password {
        Some(given) => Ok(given),
        None => Err(IdentityError::PasswordMissing),
    }
}

/// Whether the digits of `text` at the places `2k` and `2k + 1` are those
/// of `byte`, the high half first.
pub open spec fn digits_at(text: Seq<char>, k: int, byte: u8) -> bool {
    &&& text[2 * k] == hex_symbol(byte as int / 16)
    &&& text[2 * k + 1] == hex_symbol(byte as int % 16)
}

/// Lower-case hexadecimal has two digits for every byte, in the order of
/// the bytes.
pub proof fn lemma_lower_hex_digits(bytes: Seq<u8>)
    ensures
        lower_hex(bytes).len() == 2 * bytes.len(),
        forall|k: int| 0 <= k < bytes.len() ==> #[trigger] digits_at(lower_hex(bytes), k, bytes[k]),
    decreases bytes.len(),
{
    if bytes.len() > 0 {
        let shorter = bytes.drop_last();
        lemma_lower_hex_digits(shorter);
        let text = lower_hex(bytes);
        assert forall|k: int| 0 <= k < bytes.len() implies #[trigger] digits_at(
            text,
            k,
            bytes[k],
        ) by {
            if k < shorter.len() {
                assert(digits_at(lower_hex(shorter), k, shorter[k]));
            }
        }
    }
}

/// An address that is written out reads back as itself: its text, taken
/// as the `address` of a keystore, is hexadecimal and stands for the bytes
/// of the address.
pub proof fn lemma_written_address_reads_back(address: Seq<u8>)
    ensures
        is_hex_text(without_prefix(encode_utf8(address_text(address)))),
        hex_bytes(without_prefix(encode_utf8(address_text(address)))) == address,
{
    reveal_strlit("0x");
    lemma_lower_hex_digits(address);
    let digits = lower_hex(address);
    let text = address_text(address);
    assert forall|i: int| 0 <= i < text.len() implies '\0' <= #[trigger] text[i] <= '\u{7f}' by {
        if i >= 2 {
            let k = (i - 2) / 2;
            assert(digits_at(digits, k, address[k]));
        }
    }
    is_ascii_chars_encode_utf8(text);
    let encoded = encode_utf8(text);
    let read = without_prefix(encoded);
    assert forall|k: int| 0 <= k < address.len() implies hex_digit_value(#[trigger] read[2 * k])
        == Some(address[k] as int / 16) && hex_digit_value(read[2 * k + 1]) == Some(
        address[k] as int % 16,
    ) by {
        assert(digits_at(digits, k, address[k]));
    }
    assert forall|i: int| 0 <= i < read.len() implies hex_digit_value(#[trigger] read[i])
        is Some by {
        let k = i / 2;
        if i % 2 == 0 {
            assert(hex_digit_value(read[2 * k]) is Some);
        }
    }
}

/// A keystore whose `address` is the written form of an address names
/// that address.
pub proof fn lemma_keystore_names_written_address(
    parsed: JsonValue,
    written: String,
    address: Seq<u8>,
)
    requires
        parsed.member("address"@) == Some(JsonValue::Text(written)),
        written@ == address_text(address),
    ensures
        keystore_address(parsed) == Ok::<Seq<u8>, IdentityError>(address),
{
    lemma_written_address_reads_back(address);
}

} // verus!
