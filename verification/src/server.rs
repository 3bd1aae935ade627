//! What the server answers and announces on its own, without asking the
//! multiplexer: the health check, the caching policy, and the address it
//! listens on.

use vstd::prelude::*;
use crate::status::Status;

verus! {

/// The text of the answer to a health check.
pub open spec fn health_text() -> Seq<char> {
    "OK"@
}

/// The value of the `Cache-Control` header that every response carries:
/// nothing that the server sends may be kept by a cache.
pub open spec fn cache_policy() -> Seq<char> {
    "no-cache, no-store, must-revalidate"@
}

/// The port that is used where none is configured.
pub open spec fn default_port() -> Seq<char> {
    "5533"@
}

/// The address to listen on: every interface, at the configured port or
/// the default one.
pub open spec fn address_for(port: Option<Seq<char>>) -> Seq<char> {
    "0.0.0.0:"@ + match port {
        Some(port) => port,
        None => default_port(),
    }
}

/// The answer to a health check: always 200 and the text `OK`. It depends
/// on nothing, so it is the same whether or not the multiplexer can be run.
pub fn health() -> (reply: (Status, &'static str))
    ensures
        reply.0 == Status::Success,
        reply.1@ == health_text(),
{
    (Status::Success, "OK")
}

/// The value to set the `Cache-Control` header of every response to.
pub fn cache_control() -> (value: &'static str)
    ensures
        value@ == cache_policy(),
{
    "no-cache, no-store, must-revalidate"
}

/// The address to listen on, given the configured port if there is one.
pub fn bind_address(port: Option<String>) -> (address: String)
    ensures
        address@ == address_for(
            match port {
                Some(port) => Some(port@),
                None => None,
            },
        ),
{
    let mut address = String::from_str("0.0.0.0:");
    match port {
        Some(port) => address.append(port.as_str()),
        None => address.append("5533"),
    }
    address
}

} // verus!
