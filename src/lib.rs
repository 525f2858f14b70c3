//! An authentication gateway's core: it verifies the signed identity assertions that an
//! edge access-control layer puts on every request, against the layer's published key
//! set, and brokers an OAuth2 authorization-code exchange with a social identity
//! provider, bound to the verified identity by a per-user anti-CSRF state token.
//!
//! - `keys`: the published key set, lookup by key id, and the single-slot cache policy.
//! - `assertion`: the verification of one assertion, step by step.
//! - `gateway`: what the request middleware does with a request's assertion header.
//! - `broker`: the OAuth flow as a state machine, with the provider URLs it builds.
//! - `facebook`, `environment`: the provider's data and the gateway's configuration.
//!
//! Network, store and clock work stays with the caller: the functions here take what it
//! got and say what to do next.
use vstd::prelude::*;

pub mod assertion;
pub mod broker;
pub mod environment;
pub mod facebook;
pub mod gateway;
pub mod keys;

verus! {

/// Body of the root route.
pub fn index() -> (r: String)
    ensures
        r@ == "neat"@,
{
    String::from_str("neat")
}

} // verus!
