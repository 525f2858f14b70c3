use vstd::prelude::*;

use crate::assertion::{verdict, verify, AssertionError, CfAccessJwt, Verdict};
use crate::keys::SigningKeySet;

verus! {

/// The request header that carries the edge layer's assertion.
pub const ASSERTION_HEADER: &'static str = "cf-access-jwt-assertion";

/// The status a request is turned away with when its assertion is missing or invalid.
pub const REJECT_STATUS: u16 = 400;

/// Why the gateway turned a request away.
#[derive(Clone, Copy, Debug, PartialEq, Eq, Structural)]
pub enum CfAccessJwtError {
    /// The request carries no assertion header.
    Missing,
    /// The assertion did not verify.
    Invalid,
}

/// What the gateway does with a request.
#[derive(Clone, Debug)]
pub enum GatewayOutcome {
    /// Attach these claims to the request and pass it on.
    Admit(CfAccessJwt),
    /// Refresh the key set, then check the request again as refreshed.
    RefreshKeys,
    /// Answer with `REJECT_STATUS` and do not pass the request on.
    Reject { error: CfAccessJwtError, cause: Option<AssertionError> },
}

/// What the gateway does with a request whose assertion header is `header`.
pub open spec fn gateway_outcome(
    header: Option<Seq<char>>,
    claims: Option<CfAccessJwt>,
    keys: SigningKeySet,
    refreshed: bool,
    audience: Seq<char>,
    now: u64,
) -> GatewayOutcome {
    match header {
        Some(token) => match verdict(token, claims, keys.keys@, refreshed, audience, now) {
            Verdict::Accept(c) => GatewayOutcome::Admit(c),
            Verdict::Refresh => GatewayOutcome::RefreshKeys,
            Verdict::Reject(e) => GatewayOutcome::Reject {
                error: CfAccessJwtError::Invalid,
                cause: Some(e),
            },
        },
        None => GatewayOutcome::Reject { error: CfAccessJwtError::Missing, cause: None },
    }
}

/// Checks a request's assertion header: a missing header is turned away; a present one is
/// verified (see `verify`), and the request is admitted with the claims or turned away.
pub fn gateway_check(
    header: Option<&str>,
    claims: Option<CfAccessJwt>,
    keys: &SigningKeySet,
    refreshed: bool,
    audience: &str,
    now: u64,
) -> (r: GatewayOutcome)
    ensures
        r == gateway_outcome(
            match header {
                Some(t) => Some(t@),
                None => None,
            },
            claims,
            *keys,
            refreshed,
            audience@,
            now,
        ),
{
    match header {
        Some(token) => match verify(token, claims, keys, refreshed, audience, now) {
            Verdict::Accept(c) => GatewayOutcome::Admit(c),
            Verdict::Refresh => GatewayOutcome::RefreshKeys,
            Verdict::Reject(e) => GatewayOutcome::Reject {
                error: CfAccessJwtError::Invalid,
                cause: Some(e),
            },
        },
        None => GatewayOutcome::Reject { error: CfAccessJwtError::Missing, cause: None },
    }
}

} // verus!
