use vstd::prelude::*;

use crate::keys::{key_for, same_text, KeyMaterial, SigningKey, SigningKeySet};

verus! {

/// Clock skew tolerated on the temporal claims, in seconds.
pub const CLOCK_SKEW_LEEWAY_SECS: u64 = 30;

/// The verified claims of an edge-layer assertion.
#[derive(Clone, Debug)]
pub struct CfAccessJwt {
    pub iss: String,
    pub sub: String,
    pub aud: Vec<String>,
    pub exp: u64,
    pub nbf: u64,
    pub iat: u64,
    pub email: String,
    pub country: String,
}

/// Why an assertion was not accepted.
#[derive(Clone, Copy, Debug, PartialEq, Eq, Structural)]
pub enum AssertionError {
    /// The token is not three segments, its header cannot be read, it has no `kid`,
    /// or its payload is not a claim set.
    MalformedAssertion,
    /// No published key carries the token's `kid`, even after a forced refresh.
    UnknownSigningKey,
    /// The signature does not verify, or the token names another algorithm than the key.
    SignatureInvalid,
    /// The expected audience is not among the token's audiences.
    AudienceMismatch,
    /// The token expired, or is not valid yet, beyond the tolerated clock skew.
    AssertionExpired,
    /// The matched key is not an RSA key for an RSA algorithm.
    ConfigurationInvalid,
}

/// The outcome of one verification attempt.
#[derive(Clone, Debug)]
pub enum Verdict {
    /// The assertion is valid; these are its claims.
    Accept(CfAccessJwt),
    /// The token's key is not in the key set at hand: refresh the key set and try once more.
    Refresh,
    Reject(AssertionError),
}

/// The header fields read before the signature is checked.
#[derive(Clone, Debug)]
pub struct TokenHeader {
    /// The algorithm's name (`"RS256"`).
    pub alg: String,
    pub kid: Option<String>,
}

/// What the token's header says: its algorithm's name and its key id, if the header reads.
pub uninterp spec fn header_of(token: Seq<char>) -> Option<(Seq<char>, Option<Seq<char>>)>;

/// Relies on `jsonwebtoken::decode_header`: it reads the header segment of a token
/// without checking the signature. The algorithm is handed on by its variant's name.
#[verifier::external_body]
fn decode_header(token: &str) -> (r: Option<TokenHeader>)
    ensures
        match r {
            Some(h) => header_of(token@) == Some((h.alg@, h.kid.deep_view())),
            None => header_of(token@) is None,
        },
{
    match jsonwebtoken::decode_header(token) {
        Ok(h) => Some(TokenHeader { alg: format!("{:?}", h.alg), kid: h.kid }),
        Err(_) => None,
    }
}

/// Whether `signature` is a valid signature of `message` under the RSA key (`n`, `e`)
/// for the algorithm named `alg`.
pub uninterp spec fn rsa_signature_valid(
    signature: Seq<char>,
    message: Seq<char>,
    n: Seq<char>,
    e: Seq<char>,
    alg: Seq<char>,
) -> bool;

/// Relies on `jsonwebtoken::crypto::verify`, on a key that
/// `DecodingKey::from_rsa_components` builds from the base64url modulus and exponent,
/// for the algorithm that `Algorithm::from_str` reads from its name. A key or a name
/// that does not read counts as a signature that does not verify.
#[verifier::external_body]
fn verify_rsa_signature(signature: &str, message: &str, n: &str, e: &str, alg: &str) -> (r: bool)
    ensures
        r == rsa_signature_valid(signature@, message@, n@, e@, alg@),
{
    let algorithm = match <jsonwebtoken::Algorithm as std::str::FromStr>::from_str(alg) {
        Ok(a) => a,
        Err(_) => return false,
    };
    let key = match jsonwebtoken::DecodingKey::from_rsa_components(n, e) {
        Ok(k) => k,
        Err(_) => return false,
    };
    jsonwebtoken::crypto::verify(signature, message.as_bytes(), &key, algorithm).unwrap_or(false)
}

/// The index of the last `'.'` among the first `end` characters of `s`.
pub open spec fn last_dot_before(s: Seq<char>, end: int) -> Option<int>
    decreases end,
{
    if end <= 0 {
        None
    } else if s[end - 1] == '.' {
        Some(end - 1)
    } else {
        last_dot_before(s, end - 1)
    }
}

/// A token split for signature checking: the signed message (header and payload
/// segments) and the signature segment. A token is ASCII; the signature follows the
/// last `'.'`, and the message must itself hold a `'.'`.
pub open spec fn signing_parts(token: Seq<char>) -> Option<(Seq<char>, Seq<char>)> {
    if !vstd::utf8::is_ascii_chars(token) {
        None
    } else {
        match last_dot_before(token, token.len() as int) {
        Some(i) => if last_dot_before(token, i) is Some {
            Some((token.take(i), token.skip(i + 1)))
        } else {
            None
        },
        None => None,
    }
    }
}

/// The names of the RSA signature algorithms.
pub open spec fn is_rsa_algorithm(name: Seq<char>) -> bool {
    ||| name == "RS256"@
    ||| name == "RS384"@
    ||| name == "RS512"@
    ||| name == "PS256"@
    ||| name == "PS384"@
    ||| name == "PS512"@
}

/// What is wrong with the token's signature under `key`, if anything.
pub open spec fn signature_error(token: Seq<char>, header_alg: Seq<char>, key: SigningKey) -> Option<
    AssertionError,
> {
    match key.material {
        KeyMaterial::Rsa { n, e } => match key.algorithm {
            Some(alg) => if !is_rsa_algorithm(alg@) {
                Some(AssertionError::ConfigurationInvalid)
            } else if header_alg != alg@ {
                Some(AssertionError::SignatureInvalid)
            } else {
                match signing_parts(token) {
                    Some((message, signature)) => if rsa_signature_valid(
                        signature,
                        message,
                        n@,
                        e@,
                        alg@,
                    ) {
                        None
                    } else {
                        Some(AssertionError::SignatureInvalid)
                    },
                    None => Some(AssertionError::MalformedAssertion),
                }
            },
            None => Some(AssertionError::ConfigurationInvalid),
        },
        KeyMaterial::Other => Some(AssertionError::ConfigurationInvalid),
    }
}

/// Whether `audience` is one of the claimed audiences.
pub open spec fn audience_ok(claims: CfAccessJwt, audience: Seq<char>) -> bool {
    exists|i: int| 0 <= i < claims.aud@.len() && #[trigger] claims.aud@[i]@ == audience
}

/// Whether the claims are expired, or not valid yet, at `now` beyond the leeway.
pub open spec fn outside_validity(claims: CfAccessJwt, now: u64) -> bool {
    ||| claims.exp + CLOCK_SKEW_LEEWAY_SECS < now
    ||| claims.nbf > now + CLOCK_SKEW_LEEWAY_SECS
}

/// What is wrong with the claims, if anything: the audience first, then the time.
pub open spec fn claims_error(claims: CfAccessJwt, audience: Seq<char>, now: u64) -> Option<
    AssertionError,
> {
    if !audience_ok(claims, audience) {
        Some(AssertionError::AudienceMismatch)
    } else if outside_validity(claims, now) {
        Some(AssertionError::AssertionExpired)
    } else {
        None
    }
}

/// A decoded header as the pair that `header_of` names.
pub open spec fn header_view(header: Option<TokenHeader>) -> Option<(Seq<char>, Option<Seq<char>>)> {
    match header {
        Some(h) => Some((h.alg@, h.kid.deep_view())),
        None => None,
    }
}

/// The verdict on `token`, whose header reads as `header` (`None`: it does not read) and
/// whose payload decoded to `claims` (`None`: it did not), against the key set `keys`;
/// `refreshed` says whether that set was fetched anew for this token already.
pub open spec fn verdict_given(
    token: Seq<char>,
    header: Option<(Seq<char>, Option<Seq<char>>)>,
    claims: Option<CfAccessJwt>,
    keys: Seq<SigningKey>,
    refreshed: bool,
    audience: Seq<char>,
    now: u64,
) -> Verdict {
    match header {
        Some((alg, Some(kid))) => match key_for(keys, kid) {
            Some(key) => match signature_error(token, alg, key) {
                Some(e) => Verdict::Reject(e),
                None => match claims {
                    Some(c) => match claims_error(c, audience, now) {
                        Some(e) => Verdict::Reject(e),
                        None => Verdict::Accept(c),
                    },
                    None => Verdict::Reject(AssertionError::MalformedAssertion),
                },
            },
            None => if refreshed {
                Verdict::Reject(AssertionError::UnknownSigningKey)
            } else {
                Verdict::Refresh
            },
        },
        _ => Verdict::Reject(AssertionError::MalformedAssertion),
    }
}

/// The verdict on `token`, with its header as it reads.
pub open spec fn verdict(
    token: Seq<char>,
    claims: Option<CfAccessJwt>,
    keys: Seq<SigningKey>,
    refreshed: bool,
    audience: Seq<char>,
    now: u64,
) -> Verdict {
    verdict_given(token, header_of(token), claims, keys, refreshed, audience, now)
}

fn is_rsa_name(name: &String) -> (r: bool)
    ensures
        r == is_rsa_algorithm(name@),
{
    same_text(name, "RS256") || same_text(name, "RS384") || same_text(name, "RS512")
        || same_text(name, "PS256") || same_text(name, "PS384") || same_text(name, "PS512")
}

/// The position of the last `'.'` among the first `end` characters of `s`.
fn find_last_dot(s: &str, end: usize) -> (r: Option<usize>)
    requires
        s.is_ascii(),
        end <= s@.len(),
    ensures
        match r {
            Some(i) => i < end && last_dot_before(s@, end as int) == Some(i as int),
            None => last_dot_before(s@, end as int) is None,
        },
{
    let mut j: usize = end;
    while j > 0
        invariant
            s.is_ascii(),
            j <= end <= s@.len(),
            last_dot_before(s@, end as int) == last_dot_before(s@, j as int),
        decreases j,
    {
        let b = s.get_ascii(j - 1);
        proof {
            vstd::utf8::is_ascii_chars_nat_bound(s@);
            assert((s@[j - 1] as nat) < 128);
        }
        if b == 46u8 {
            assert(s@[j - 1] == '.');
            return Some(j - 1);
        }
        assert(s@[j - 1] != '.');
        j = j - 1;
    }
    None
}

/// Splits a token into its signed message and its signature segment.
pub fn split_signing_parts(token: &str) -> (r: Option<(&str, &str)>)
    ensures
        match r {
            Some((message, signature)) => signing_parts(token@) == Some((message@, signature@)),
            None => signing_parts(token@) is None,
        },
{
    if !token.is_ascii() {
        return None;
    }
    let len = token.unicode_len();
    match find_last_dot(token, len) {
        Some(i) => match find_last_dot(token, i) {
            Some(_) => {
                let message = token.substring_ascii(0, i);
                let signature = token.substring_ascii(i + 1, len);
                proof {
                    assert(message@ =~= token@.take(i as int));
                    assert(signature@ =~= token@.skip(i + 1));
                }
                Some((message, signature))
            },
            None => None,
        },
        None => None,
    }
}

/// Checks the token's signature under `key`, whose `kid` the token names.
pub fn check_signature(token: &str, header_alg: &String, key: &SigningKey) -> (r: Option<
    AssertionError,
>)
    ensures
        r == signature_error(token@, header_alg@, *key),
{
    match &key.material {
        KeyMaterial::Rsa { n, e } => match &key.algorithm {
            Some(alg) => {
                if !is_rsa_name(alg) {
                    Some(AssertionError::ConfigurationInvalid)
                } else if !(*header_alg == *alg) {
                    Some(AssertionError::SignatureInvalid)
                } else {
                    match split_signing_parts(token) {
                        Some((message, signature)) => {
                            if verify_rsa_signature(
                                signature,
                                message,
                                n.as_str(),
                                e.as_str(),
                                alg.as_str(),
                            ) {
                                None
                            } else {
                                Some(AssertionError::SignatureInvalid)
                            }
                        },
                        None => Some(AssertionError::MalformedAssertion),
                    }
                }
            },
            None => Some(AssertionError::ConfigurationInvalid),
        },
        KeyMaterial::Other => Some(AssertionError::ConfigurationInvalid),
    }
}

/// Whether `audience` is among the claimed audiences.
pub fn has_audience(claims: &CfAccessJwt, audience: &str) -> (r: bool)
    ensures
        r == audience_ok(*claims, audience@),
{
    let mut i: usize = 0;
    while i < claims.aud.len()
        invariant
            i <= claims.aud@.len(),
            forall|j: int| 0 <= j < i ==> claims.aud@[j]@ != audience@,
        decreases claims.aud@.len() - i,
    {
        if same_text(&claims.aud[i], audience) {
            return true;
        }
        i = i + 1;
    }
    false
}

/// Checks the audience, then the expiry and not-before instants against `now`.
pub fn check_claims(claims: &CfAccessJwt, audience: &str, now: u64) -> (r: Option<AssertionError>)
    ensures
        r == claims_error(*claims, audience@, now),
{
    if !has_audience(claims, audience) {
        return Some(AssertionError::AudienceMismatch);
    }
    let expired = now > CLOCK_SKEW_LEEWAY_SECS && claims.exp < now - CLOCK_SKEW_LEEWAY_SECS;
    let premature = claims.nbf > CLOCK_SKEW_LEEWAY_SECS && claims.nbf - CLOCK_SKEW_LEEWAY_SECS
        > now;
    if expired || premature {
        Some(AssertionError::AssertionExpired)
    } else {
        None
    }
}

/// Verifies an assertion whose header reads as `header` (`None`: it does not read):
/// resolves the header's key id in `keys`, checks the signature, then the audience and
/// the time. `claims` is the token's payload as decoded, `None` where it is not a claim
/// set. When the key is unknown and `keys` has not been refreshed for this token yet,
/// the verdict asks for one refresh.
pub fn verify_decoded(
    token: &str,
    header: Option<TokenHeader>,
    claims: Option<CfAccessJwt>,
    keys: &SigningKeySet,
    refreshed: bool,
    audience: &str,
    now: u64,
) -> (r: Verdict)
    ensures
        r == verdict_given(token@, header_view(header), claims, keys.keys@, refreshed, audience@, now),
{
    let header = match header {
        Some(h) => h,
        None => return Verdict::Reject(AssertionError::MalformedAssertion),
    };
    let kid = match &header.kid {
        Some(k) => k,
        None => return Verdict::Reject(AssertionError::MalformedAssertion),
    };
    let key = match keys.find(kid.as_str()) {
        Some(k) => k,
        None => {
            return if refreshed {
                Verdict::Reject(AssertionError::UnknownSigningKey)
            } else {
                Verdict::Refresh
            };
        },
    };
    match check_signature(token, &header.alg, key) {
        Some(e) => return Verdict::Reject(e),
        None => {},
    }
    match claims {
        Some(c) => match check_claims(&c, audience, now) {
            Some(e) => Verdict::Reject(e),
            None => Verdict::Accept(c),
        },
        None => Verdict::Reject(AssertionError::MalformedAssertion),
    }
}

/// Verifies an assertion: reads its header, then goes on as `verify_decoded`.
pub fn verify(
    token: &str,
    claims: Option<CfAccessJwt>,
    keys: &SigningKeySet,
    refreshed: bool,
    audience: &str,
    now: u64,
) -> (r: Verdict)
    ensures
        r == verdict(token@, claims, keys.keys@, refreshed, audience@, now),
{
    let header = decode_header(token);
    verify_decoded(token, header, claims, keys, refreshed, audience, now)
}

/// A token whose key is in the key set, whose signature verifies and whose claims carry
/// the expected audience and are valid at `now` is accepted with exactly its claims.
pub proof fn lemma_valid_assertion_accepted(
    token: Seq<char>,
    claims: CfAccessJwt,
    keys: Seq<SigningKey>,
    refreshed: bool,
    audience: Seq<char>,
    now: u64,
    alg: Seq<char>,
    kid: Seq<char>,
    key: SigningKey,
)
    requires
        header_of(token) == Some((alg, Some(kid))),
        key_for(keys, kid) == Some(key),
        signature_error(token, alg, key) is None,
        audience_ok(claims, audience),
        !outside_validity(claims, now),
    ensures
        verdict(token, Some(claims), keys, refreshed, audience, now) == Verdict::Accept(claims),
{
}

/// A token whose key is not in the key set asks for exactly one refresh: the first
/// attempt asks for it, and an attempt on a refreshed set that still lacks the key
/// fails with `UnknownSigningKey`. No attempt on a refreshed set asks for another.
pub proof fn lemma_unknown_key_single_refresh(
    token: Seq<char>,
    claims: Option<CfAccessJwt>,
    cached: Seq<SigningKey>,
    refreshed_keys: Seq<SigningKey>,
    audience: Seq<char>,
    now: u64,
    later: u64,
    alg: Seq<char>,
    kid: Seq<char>,
)
    requires
        header_of(token) == Some((alg, Some(kid))),
        key_for(cached, kid) is None,
        key_for(refreshed_keys, kid) is None,
    ensures
        verdict(token, claims, cached, false, audience, now) == Verdict::Refresh,
        verdict(token, claims, refreshed_keys, true, audience, later) == Verdict::Reject(
            AssertionError::UnknownSigningKey,
        ),
        forall|t: Seq<char>, c: Option<CfAccessJwt>, k: Seq<SigningKey>, a: Seq<char>, n: u64|
            !(#[trigger] verdict(t, c, k, true, a, n) is Refresh),
{
}

} // verus!
