//! What Hermes, the payment-channel service, reports about a party, and
//! how its answers are read.

use vstd::prelude::*;
use crate::json::JsonValue;
use crate::text::decimal;
use crate::text::glue;
use crate::text::i64_text;

verus! {

/// The latest payment promise of a party.
#[derive(Debug)]
pub struct PromiseInfo {
    pub amount: String,
    pub fee: String,
}

/// The record that Hermes keeps of a party.
#[derive(Debug)]
pub struct HermesUserInfo {
    pub balance: String,
    pub latest_promise: Option<PromiseInfo>,
}

impl PromiseInfo {
    /// The promise in words: the amount, then the fee.
    pub open spec fn describe(self) -> Seq<char> {
        "amount="@ + self.amount@ + " fee="@ + self.fee@
    }

    /// The promise in words, as text.
    pub fn to_string(&self) -> (text: String)
        ensures
            text@ == self.describe(),
    {
        glue("amount=", self.amount.as_str()).concat(" fee=").concat(self.fee.as_str())
    }
}

impl HermesUserInfo {
    /// The record in words: the balance, then the latest promise where
    /// there is one.
    pub open spec fn describe(self) -> Seq<char> {
        match self.latest_promise {
            Some(promise) => "balance="@ + self.balance@ + " "@ + promise.describe(),
            None => "balance="@ + self.balance@,
        }
    }

    /// The record in words, as text.
    pub fn to_string(&self) -> (text: String)
        ensures
            text@ == self.describe(),
    {
        let balance = glue("balance=", self.balance.as_str());
        match &self.latest_promise {
            Some(promise) => {
                let words = promise.to_string();
                balance.concat(" ").concat(words.as_str())
            },
            None => balance,
        }
    }

    /// The latest promise in words, or `none` where the party has made
    /// none.
    pub open spec fn latest_promise_words(self) -> Seq<char> {
        match self.latest_promise {
            Some(promise) => promise.describe(),
            None => "none"@,
        }
    }

    /// The latest promise in words, as text.
    pub fn latest_promise_text(&self) -> (text: String)
        ensures
            text@ == self.latest_promise_words(),
    {
        match &self.latest_promise {
            Some(promise) => promise.to_string(),
            None => String::from_str("none"),
        }
    }
}

/// Why an answer of Hermes gave no record.
#[derive(Clone, Copy, PartialEq, Eq, Structural, Debug)]
pub enum HermesError {
    /// Hermes answered that it has no such record.
    NotFound,
    /// The answer is no JSON object.
    UnexpectedPayload,
    /// The answer holds nothing for the chain that was asked for.
    MissingChain(i64),
}

impl HermesError {
    /// The message of the error.
    pub open spec fn message(self) -> Seq<char> {
        match self {
            HermesError::NotFound => "record not found on Hermes"@,
            HermesError::UnexpectedPayload => "unexpected Hermes payload"@,
            HermesError::MissingChain(chain_id) => "Hermes did not return data for chain "@
                + decimal(chain_id as int),
        }
    }

    /// The message of the error, as text.
    pub fn to_string(&self) -> (text: String)
        ensures
            text@ == self.message(),
    {
        match self {
            HermesError::NotFound => String::from_str("record not found on Hermes"),
            HermesError::UnexpectedPayload => String::from_str("unexpected Hermes payload"),
            HermesError::MissingChain(chain_id) => {
                let number = i64_text(*chain_id);
                glue("Hermes did not return data for chain ", number.as_str())
            },
        }
    }
}

/// The HTTP status with which Hermes says that it has no record.
pub const STATUS_NOT_FOUND: u16 = 404;

/// The path under which Hermes keeps the record of a consumer.
pub fn consumer_path(consumer: &str) -> (path: String)
    ensures
        path@ == "data/consumer/"@ + consumer@,
{
    glue("data/consumer/", consumer)
}

/// The path under which Hermes keeps the record of a provider.
pub fn provider_path(provider: &str) -> (path: String)
    ensures
        path@ == "data/provider/"@ + provider@,
{
    glue("data/provider/", provider)
}

/// Tells from the HTTP status whether Hermes has answered with a record:
/// status 404 says that there is none, every other status lets the body
/// be read.
pub fn check_status(status: u16) -> (checked: Result<(), HermesError>)
    ensures
        status == STATUS_NOT_FOUND ==> checked == Err::<(), HermesError>(HermesError::NotFound),
        status != STATUS_NOT_FOUND ==> checked is Ok,
{
    if status == STATUS_NOT_FOUND {
        Err(HermesError::NotFound)
    } else {
        Ok(())
    }
}

/// The key under which an answer of Hermes keeps the record of a chain:
/// the chain id in decimal.
pub fn chain_key(chain_id: i64) -> (key: String)
    ensures
        key@ == decimal(chain_id as int),
{
    i64_text(chain_id)
}

/// The record of a chain in an answer of Hermes.
///
/// The answer has to be an object; the record is its member under the
/// chain id in decimal.
pub open spec fn chain_record(payload: JsonValue, chain_id: i64) -> Result<
    JsonValue,
    HermesError,
> {
    if !(payload is Object) {
        Err(HermesError::UnexpectedPayload)
    } else {
        match payload.member(decimal(chain_id as int)) {
            Some(record) => Ok(record),
            None => Err(HermesError::MissingChain(chain_id)),
        }
    }
}

/// Picks the record of a chain out of an answer of Hermes.
pub fn chain_entry(payload: &JsonValue, chain_id: i64) -> (entry: Result<&JsonValue, HermesError>)
    ensures
        match entry {
            Ok(record) => chain_record(*payload, chain_id) == Ok::<JsonValue, HermesError>(
                *record,
            ),
            Err(error) => chain_record(*payload, chain_id) == Err::<JsonValue, HermesError>(
                error,
            ),
        },
{
    if !payload.is_object() {
        return Err(HermesError::UnexpectedPayload);
    }
    let key = chain_key(chain_id);
    match payload.get(key.as_str()) {
        Some(record) => Ok(record),
        None => Err(HermesError::MissingChain(chain_id)),
    }
}

} // verus!
