//! What a lookup of a hostname comes to.

use vstd::prelude::*;
use vstd::string::*;

verus! {

/// Why a hostname has no address.
#[derive(Debug, PartialEq, Eq)]
pub enum ResolutionError {
    /// The lookup of the host itself failed.
    LookupFailed(String),
    /// The lookup worked and the host has no address record.
    NoAddress(String),
}

/// A `ResolutionError` as contracts see it.
pub enum Failure {
    LookupFailed(Seq<char>),
    NoAddress(Seq<char>),
}

impl View for ResolutionError {
    type V = Failure;

    open spec fn view(&self) -> Failure {
        match self {
            ResolutionError::LookupFailed(host) => Failure::LookupFailed(host@),
            ResolutionError::NoAddress(host) => Failure::NoAddress(host@),
        }
    }
}

impl Clone for ResolutionError {
    fn clone(&self) -> (r: Self)
        ensures
            r@ == self@,
    {
        match self {
            ResolutionError::LookupFailed(host) => ResolutionError::LookupFailed(host.clone()),
            ResolutionError::NoAddress(host) => ResolutionError::NoAddress(host.clone()),
        }
    }
}

/// The text that reports `failure`.
pub open spec fn failure_message(failure: Failure) -> Seq<char> {
    match failure {
        Failure::LookupFailed(host) => "DNS lookup failed on "@ + host,
        Failure::NoAddress(host) => "No DNS address entry for "@ + host,
    }
}

impl ResolutionError {
    /// The host that could not be resolved.
    pub fn host(&self) -> (r: &String)
        ensures
            r@ == match self@ {
                Failure::LookupFailed(host) => host,
                Failure::NoAddress(host) => host,
            },
    {
        match self {
            ResolutionError::LookupFailed(host) => host,
            ResolutionError::NoAddress(host) => host,
        }
    }

    /// The text that reports the error.
    pub fn message(&self) -> (r: String)
        ensures
            r@ == failure_message(self@),
    {
        match self {
            ResolutionError::LookupFailed(host) => {
                let mut r = "DNS lookup failed on ".to_string();
                r.append(host.as_str());
                r
            },
            ResolutionError::NoAddress(host) => {
                let mut r = "No DNS address entry for ".to_string();
                r.append(host.as_str());
                r
            },
        }
    }
}

/// What a lookup found, as contracts see it: `None` when the lookup
/// failed, else the addresses in the order in which they came.
pub open spec fn found(lookup: Option<Vec<String>>) -> Option<Seq<Seq<char>>> {
    match lookup {
        Some(addresses) => Some(addresses@.map_values(|a: String| a@)),
        None => None,
    }
}

/// The address that a lookup gives for `host`: the first one found.
pub open spec fn resolved(host: Seq<char>, lookup: Option<Seq<Seq<char>>>) -> Result<
    Seq<char>,
    Failure,
> {
    match lookup {
        None => Err(Failure::LookupFailed(host)),
        Some(addresses) => if addresses.len() > 0 && addresses[0].len() > 0 {
            Ok(addresses[0])
        } else {
            Err(Failure::NoAddress(host))
        },
    }
}

/// What a resolver's answer is to contracts.
pub open spec fn outcome_view(answer: Result<String, ResolutionError>) -> Result<
    Seq<char>,
    Failure,
> {
    match answer {
        Ok(address) => Ok(address@),
        Err(e) => Err(e@),
    }
}

/// The current address of `host`, taken from what a lookup of the host
/// found: `lookup` is `None` when the lookup failed, else the addresses
/// found, in order. The first address counts. An address is never empty.
pub fn current_ip(host: &str, lookup: &Option<Vec<String>>) -> (r: Result<String, ResolutionError>)
    ensures
        outcome_view(r) == resolved(host@, found(*lookup)),
{
    match lookup {
        None => Err(ResolutionError::LookupFailed(host.to_string())),
        Some(addresses) => {
            if addresses.len() > 0 && !addresses[0].as_str().is_empty() {
                Ok(addresses[0].clone())
            } else {
                Err(ResolutionError::NoAddress(host.to_string()))
            }
        },
    }
}

} // verus!
