//! Where the relay connects to: the contact endpoint of a provider.

use vstd::prelude::*;
use crate::text::decimal;
use crate::text::glue;
use crate::text::has_char;
use crate::text::u16_text;

verus! {

/// Why no contact endpoint could be named.
#[derive(Clone, Copy, PartialEq, Eq, Structural, Debug)]
pub enum ContactError {
    /// Neither a contact was given nor does the provider id say anything.
    EmptyProvider,
}

impl ContactError {
    /// The message of the error.
    pub open spec fn message(self) -> Seq<char> {
        "provider id is empty; specify --contact or host:port"@
    }

    /// The message of the error, as text.
    pub fn to_string(&self) -> (text: String)
        ensures
            text@ == self.message(),
    {
        String::from_str("provider id is empty; specify --contact or host:port")
    }
}

/// The characters of an optional string slice.
pub open spec fn opt_str_text(value: Option<&str>) -> Option<Seq<char>> {
    match value {
        Some(s) => Some(s@),
        None => None,
    }
}

/// The endpoint that a provider is reached at.
///
/// An explicit contact is taken as it is. Without one, a provider id that
/// holds a colon is a `host:port` itself; any other non-empty provider id is
/// a host, and the remote port is put behind it. An empty provider id names
/// nothing.
pub open spec fn contact_choice(
    provider: Seq<char>,
    contact: Option<Seq<char>>,
    remote_port: u16,
) -> Result<Seq<char>, ContactError> {
    if contact is Some {
        Ok(contact->0)
    } else if provider.contains(':') {
        Ok(provider)
    } else if provider.len() == 0 {
        Err(ContactError::EmptyProvider)
    } else {
        Ok(provider + seq![':'] + decimal(remote_port as int))
    }
}

/// Names the endpoint that a provider is reached at.
pub fn resolve_contact(provider: &str, contact: Option<&str>, remote_port: u16) -> (endpoint:
    Result<String, ContactError>)
    ensures
        match endpoint {
            Ok(target) => contact_choice(provider@, opt_str_text(contact), remote_port) == Ok::<
                Seq<char>,
                ContactError,
            >(target@),
            Err(error) => contact_choice(provider@, opt_str_text(contact), remote_port) == Err::<
                Seq<char>,
                ContactError,
            >(error),
        },
{
    if let Some(explicit) = contact {
        return Ok(explicit.to_owned());
    }
    if has_char(provider, ':') {
        return Ok(provider.to_owned());
    }
    if provider.is_empty() {
        return Err(ContactError::EmptyProvider);
    }
    proof {
        reveal_strlit(":");
    }
    let port = u16_text(remote_port);
    let host = glue(provider, ":");
    let target = host.concat(port.as_str());
    assert(target@ =~= provider@ + seq![':'] + decimal(remote_port as int));
    Ok(target)
}

} // verus!
