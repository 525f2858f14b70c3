use vstd::prelude::*;

use crate::environment::AppEnvironment;
use crate::facebook::{
    FacebookAccessToken, FacebookDebugTokenGraphContainer, LocationResponder, RedirectResponse,
    TempResponse,
};

verus! {

/// Path of the route that starts the login leg.
pub const LOGIN_PATH: &'static str = "/api/v1/login/facebook";

/// Path of the route that the provider redirects back to.
pub const CALLBACK_PATH: &'static str = "/api/v1/redirect/facebook";

/// The provider's authorization endpoint.
pub const AUTHORIZE_URL: &'static str = "https://www.facebook.com/v15.0/dialog/oauth";

/// The provider's code-exchange endpoint.
pub const ACCESS_TOKEN_URL: &'static str = "https://graph.facebook.com/v15.0/oauth/access_token";

/// The provider's token-introspection endpoint.
pub const DEBUG_TOKEN_URL: &'static str = "https://graph.facebook.com/debug_token";

/// The namespace of the state tokens in the key-value store.
pub const STATE_KEY_PREFIX: &'static str = "fb_state+";

/// The length of a state token.
pub const STATE_TOKEN_LEN: usize = 16;

/// `base` read as a URL, with its path replaced by `path`, written out; `None` where
/// `base` does not read as a URL.
pub uninterp spec fn url_with_path_of(base: Seq<char>, path: Seq<char>) -> Option<Seq<char>>;

/// Relies on `url::Url::parse` to read `base` and `url::Url::set_path` to replace its path.
#[verifier::external_body]
fn url_with_path(base: &str, path: &str) -> (r: Option<String>)
    ensures
        r.deep_view() == url_with_path_of(base@, path@),
{
    match url::Url::parse(base) {
        Ok(mut url) => {
            url.set_path(path);
            Some(url.into())
        },
        Err(_) => None,
    }
}

/// `base` read as a URL, with `params` appended to its query, written out; `None` where
/// `base` does not read as a URL.
pub uninterp spec fn url_with_query_of(
    base: Seq<char>,
    params: Seq<(Seq<char>, Seq<char>)>,
) -> Option<Seq<char>>;

/// Relies on `url::Url::parse_with_params`: it reads `base` and appends the pairs to its
/// query, form-encoded.
#[verifier::external_body]
fn url_with_query(base: &str, params: &Vec<(String, String)>) -> (r: Option<String>)
    ensures
        r.deep_view() == url_with_query_of(base@, params.deep_view()),
{
    match url::Url::parse_with_params(base, params.iter()) {
        Ok(url) => Some(url.into()),
        Err(_) => None,
    }
}

pub open spec fn is_alphanumeric(c: char) -> bool {
    ||| ('A' <= c && c <= 'Z')
    ||| ('a' <= c && c <= 'z')
    ||| ('0' <= c && c <= '9')
}

/// A well-formed state token: sixteen ASCII letters and digits.
pub open spec fn is_state_token(t: Seq<char>) -> bool {
    &&& t.len() == STATE_TOKEN_LEN
    &&& forall|i: int| 0 <= i < t.len() ==> is_alphanumeric(#[trigger] t[i])
}

/// Relies on rand's `Alphanumeric` distribution: `sample_string` draws `len` characters,
/// each from A-Z, a-z and 0-9, here with the thread-local generator.
#[verifier::external_body]
fn random_alphanumeric(len: usize) -> (r: String)
    ensures
        r@.len() == len,
        forall|i: int| 0 <= i < r@.len() ==> is_alphanumeric(#[trigger] r@[i]),
{
    rand::distributions::DistString::sample_string(
        &rand::distributions::Alphanumeric,
        &mut rand::thread_rng(),
        len,
    )
}

/// The store key under which the state token of `email` is kept.
pub open spec fn state_key_of(email: Seq<char>) -> Seq<char> {
    STATE_KEY_PREFIX@ + email
}

/// The store key under which the state token of `email` is kept.
pub fn state_key(email: &str) -> (r: String)
    ensures
        r@ == state_key_of(email@),
{
    let mut key = String::from_str(STATE_KEY_PREFIX);
    key.append(email);
    key
}

/// Why a flow was rejected.
#[derive(Clone, Copy, Debug, PartialEq, Eq, Structural)]
pub enum BrokerError {
    /// The configured base URL does not read as a URL, so no provider URL can be built.
    ConfigurationInvalid,
    /// The callback came without `code` or without `state`.
    MissingCallbackParameter,
    /// No state token is stored for the user, or it differs from the callback's.
    CsrfMismatch,
    /// The key-value store could not be written or read.
    CsrfStoreUnavailable,
    /// The provider could not be reached.
    ProviderUnreachable,
    /// The provider's introspection answer is not of the expected shape.
    ProviderResponseUnparseable,
    /// An event came that the flow's state does not expect.
    UnexpectedEvent,
}

/// Where a flow stands.
#[derive(Clone, Debug)]
pub enum FlowState {
    /// Login leg: waiting for the login request.
    AwaitingLogin,
    /// Login leg: the state token is being stored; then the caller goes to `location`.
    StoringState { location: String },
    /// Callback leg: waiting for the callback request.
    AwaitingCallback,
    /// Callback leg: the stored state token is being read, to compare with `state`.
    CheckingState { code: String, state: String },
    /// Waiting for the provider's code exchange.
    Exchanging,
    /// Waiting for the provider's introspection of `token`.
    Introspecting { token: FacebookAccessToken },
    Completed,
    Rejected(BrokerError),
}

/// What a read of the state key gave.
#[derive(Clone, Debug)]
pub enum StoreReply {
    Value(String),
    Missing,
    Unavailable,
}

/// What a call to the provider gave.
#[derive(Clone, Debug)]
pub enum ProviderReply<T> {
    /// The call failed on the way (transport error or timeout).
    Unreachable,
    /// The answer is not of the expected shape.
    Unparseable,
    Parsed(T),
}

/// What happened since the flow's last step.
#[derive(Clone, Debug)]
pub enum FlowEvent {
    LoginRequested { email: String, state_token: String },
    StateStored(bool),
    CallbackReceived { email: String, code: Option<String>, state: Option<String> },
    StateRead(StoreReply),
    TokenExchanged(ProviderReply<FacebookAccessToken>),
    TokenIntrospected(ProviderReply<FacebookDebugTokenGraphContainer>),
}

/// What the caller has to do next.
#[derive(Clone, Debug)]
pub enum FlowAction {
    /// Store `value` under `key`, then report `StateStored`.
    StoreState { key: String, value: String },
    /// Read the value under `key`, then report `StateRead`.
    ReadState { key: String },
    /// Send a GET to `url`, then report what came back.
    ProviderGet { url: String },
    /// Answer the request; the flow's leg is over.
    Respond(RedirectResponse<TempResponse>),
}

/// The callback URL of the gateway.
pub open spec fn redirect_uri_of(env: AppEnvironment) -> Option<Seq<char>> {
    url_with_path_of(env.base_url@, CALLBACK_PATH@)
}

/// The provider URL the login leg sends the caller to, carrying `state_token`.
pub open spec fn authorize_url_of(env: AppEnvironment, state_token: Seq<char>) -> Option<
    Seq<char>,
> {
    match redirect_uri_of(env) {
        Some(redirect_uri) => url_with_query_of(
            AUTHORIZE_URL@,
            seq![
                ("client_id"@, env.facebook_client_id@),
                ("redirect_uri"@, redirect_uri),
                ("state"@, state_token),
                ("scope"@, env.facebook_required_scopes@),
            ],
        ),
        None => None,
    }
}

/// The provider URL that exchanges `code` for an access token.
pub open spec fn exchange_url_of(env: AppEnvironment, code: Seq<char>) -> Option<Seq<char>> {
    match redirect_uri_of(env) {
        Some(redirect_uri) => url_with_query_of(
            ACCESS_TOKEN_URL@,
            seq![
                ("client_id"@, env.facebook_client_id@),
                ("client_secret"@, env.facebook_client_secret@),
                ("redirect_uri"@, redirect_uri),
                ("code"@, code),
            ],
        ),
        None => None,
    }
}

/// The app credential the introspection endpoint takes: client id and secret, joined by `|`.
pub open spec fn app_token_of(env: AppEnvironment) -> Seq<char> {
    env.facebook_client_id@ + "|"@ + env.facebook_client_secret@
}

/// The provider URL that introspects `access_token`.
pub open spec fn introspect_url_of(env: AppEnvironment, access_token: Seq<char>) -> Option<
    Seq<char>,
> {
    url_with_query_of(
        DEBUG_TOKEN_URL@,
        seq![("input_token"@, access_token), ("access_token"@, app_token_of(env))],
    )
}

/// Where a caller whose code could not be exchanged is sent: the login route.
pub open spec fn login_location_of(env: AppEnvironment) -> Seq<char> {
    env.base_url@ + LOGIN_PATH@
}

/// The flow ends with `err`, answered with `status`.
pub open spec fn rejects(s2: FlowState, a: FlowAction, err: BrokerError, status: u16) -> bool {
    &&& s2 == FlowState::Rejected(err)
    &&& a matches FlowAction::Respond(resp) && resp.status_of() == status
}

/// The flow goes to `s` and sends a GET to the provider URL `url`, or, where no URL could
/// be built, ends with `ConfigurationInvalid`.
pub open spec fn calls_provider(
    url: Option<Seq<char>>,
    s: FlowState,
    s2: FlowState,
    a: FlowAction,
) -> bool {
    match url {
        Some(u) => s2 == s && (a matches FlowAction::ProviderGet { url } && url@ == u),
        None => rejects(s2, a, BrokerError::ConfigurationInvalid, 500),
    }
}

/// One step of the flow: from `s`, on `e`, the flow goes to `s2` and asks for `a`.
pub open spec fn transition(
    env: AppEnvironment,
    s: FlowState,
    e: FlowEvent,
    s2: FlowState,
    a: FlowAction,
) -> bool {
    match (s, e) {
        (FlowState::AwaitingLogin, FlowEvent::LoginRequested { email, state_token }) => match
        authorize_url_of(env, state_token@) {
            Some(loc) => {
                &&& s2 matches FlowState::StoringState { location } && location@ == loc
                &&& a matches FlowAction::StoreState { key, value } && key@ == state_key_of(
                    email@,
                ) && value == state_token
            },
            None => rejects(s2, a, BrokerError::ConfigurationInvalid, 500),
        },
        (FlowState::StoringState { location }, FlowEvent::StateStored(stored)) => if stored {
            &&& s2 == FlowState::AwaitingCallback
            &&& a == FlowAction::Respond(
                RedirectResponse::Redirect(LocationResponder { location }),
            )
        } else {
            rejects(s2, a, BrokerError::CsrfStoreUnavailable, 500)
        },
        (FlowState::AwaitingCallback, FlowEvent::CallbackReceived { email, code, state }) => match (
            code,
            state,
        ) {
            (Some(code), Some(state)) => {
                &&& s2 == FlowState::CheckingState { code, state }
                &&& a matches FlowAction::ReadState { key } && key@ == state_key_of(email@)
            },
            _ => rejects(s2, a, BrokerError::MissingCallbackParameter, 400),
        },
        (FlowState::CheckingState { code, state }, FlowEvent::StateRead(reply)) => match reply {
            StoreReply::Value(stored) => if stored@ == state@ {
                calls_provider(exchange_url_of(env, code@), FlowState::Exchanging, s2, a)
            } else {
                rejects(s2, a, BrokerError::CsrfMismatch, 400)
            },
            StoreReply::Missing => rejects(s2, a, BrokerError::CsrfMismatch, 400),
            StoreReply::Unavailable => rejects(s2, a, BrokerError::CsrfStoreUnavailable, 500),
        },
        (FlowState::Exchanging, FlowEvent::TokenExchanged(reply)) => match reply {
            ProviderReply::Parsed(token) => calls_provider(
                introspect_url_of(env, token.access_token@),
                FlowState::Introspecting { token },
                s2,
                a,
            ),
            ProviderReply::Unparseable => {
                &&& s2 == FlowState::AwaitingLogin
                &&& a matches FlowAction::Respond(RedirectResponse::Redirect(l)) && l.location@
                    == login_location_of(env)
            },
            ProviderReply::Unreachable => rejects(s2, a, BrokerError::ProviderUnreachable, 500),
        },
        (FlowState::Introspecting { token }, FlowEvent::TokenIntrospected(reply)) => match reply {
            ProviderReply::Parsed(graph) => {
                &&& s2 == FlowState::Completed
                &&& a == FlowAction::Respond(
                    RedirectResponse::Success(
                        TempResponse { access_token: token, debug_graph: graph },
                    ),
                )
            },
            ProviderReply::Unparseable => rejects(
                s2,
                a,
                BrokerError::ProviderResponseUnparseable,
                500,
            ),
            ProviderReply::Unreachable => rejects(s2, a, BrokerError::ProviderUnreachable, 500),
        },
        _ => rejects(s2, a, BrokerError::UnexpectedEvent, 500),
    }
}

/// The status a rejection is answered with: 400 where the caller is at fault, else 500.
pub open spec fn error_status(err: BrokerError) -> u16 {
    match err {
        BrokerError::MissingCallbackParameter | BrokerError::CsrfMismatch => 400,
        _ => 500,
    }
}

/// Ends the flow with `err`.
pub fn reject(err: BrokerError) -> (r: (FlowState, FlowAction))
    ensures
        rejects(r.0, r.1, err, error_status(err)),
{
    let resp = match err {
        BrokerError::ConfigurationInvalid => RedirectResponse::InternalServerError(
            "failed to construct provider url",
        ),
        BrokerError::MissingCallbackParameter => RedirectResponse::Unauthorized(""),
        BrokerError::CsrfMismatch => RedirectResponse::Unauthorized(""),
        BrokerError::CsrfStoreUnavailable => RedirectResponse::InternalServerError(
            "failed to access state",
        ),
        BrokerError::ProviderUnreachable => RedirectResponse::InternalServerError(
            "failed to reach provider",
        ),
        BrokerError::ProviderResponseUnparseable => RedirectResponse::InternalServerError(
            "unexpected provider response",
        ),
        BrokerError::UnexpectedEvent => RedirectResponse::InternalServerError("unexpected event"),
    };
    (FlowState::Rejected(err), FlowAction::Respond(resp))
}

fn pair(name: &str, value: &String) -> (r: (String, String))
    ensures
        r.0@ == name@,
        r.1@ == value@,
{
    (String::from_str(name), value.clone())
}

/// The callback URL of the gateway.
pub fn redirect_uri(env: &AppEnvironment) -> (r: Option<String>)
    ensures
        r.deep_view() == redirect_uri_of(*env),
{
    url_with_path(env.base_url.as_str(), CALLBACK_PATH)
}

/// The provider URL the login leg sends the caller to, carrying `state_token`.
pub fn authorize_url(env: &AppEnvironment, state_token: &String) -> (r: Option<String>)
    ensures
        r.deep_view() == authorize_url_of(*env, state_token@),
{
    match redirect_uri(env) {
        Some(redirect_uri) => {
            let mut params: Vec<(String, String)> = Vec::new();
            params.push(pair("client_id", &env.facebook_client_id));
            params.push(pair("redirect_uri", &redirect_uri));
            params.push(pair("state", state_token));
            params.push(pair("scope", &env.facebook_required_scopes));
            proof {
                assert(params.deep_view() =~= seq![
                    ("client_id"@, env.facebook_client_id@),
                    ("redirect_uri"@, redirect_uri@),
                    ("state"@, state_token@),
                    ("scope"@, env.facebook_required_scopes@),
                ]);
            }
            url_with_query(AUTHORIZE_URL, &params)
        },
        None => None,
    }
}

/// The provider URL that exchanges `code` for an access token.
pub fn exchange_url(env: &AppEnvironment, code: &String) -> (r: Option<String>)
    ensures
        r.deep_view() == exchange_url_of(*env, code@),
{
    match redirect_uri(env) {
        Some(redirect_uri) => {
            let mut params: Vec<(String, String)> = Vec::new();
            params.push(pair("client_id", &env.facebook_client_id));
            params.push(pair("client_secret", &env.facebook_client_secret));
            params.push(pair("redirect_uri", &redirect_uri));
            params.push(pair("code", code));
            proof {
                assert(params.deep_view() =~= seq![
                    ("client_id"@, env.facebook_client_id@),
                    ("client_secret"@, env.facebook_client_secret@),
                    ("redirect_uri"@, redirect_uri@),
                    ("code"@, code@),
                ]);
            }
            url_with_query(ACCESS_TOKEN_URL, &params)
        },
        None => None,
    }
}

/// The provider URL that introspects `access_token`.
pub fn introspect_url(env: &AppEnvironment, access_token: &String) -> (r: Option<String>)
    ensures
        r.deep_view() == introspect_url_of(*env, access_token@),
{
    let mut app_token = env.facebook_client_id.clone();
    app_token.append("|");
    app_token.append(env.facebook_client_secret.as_str());
    let mut params: Vec<(String, String)> = Vec::new();
    params.push(pair("input_token", access_token));
    params.push(pair("access_token", &app_token));
    proof {
        assert(params.deep_view() =~= seq![
            ("input_token"@, access_token@),
            ("access_token"@, app_token_of(*env)),
        ]);
    }
    url_with_query(DEBUG_TOKEN_URL, &params)
}

/// Where a caller whose code could not be exchanged is sent: the login route.
pub fn login_location(env: &AppEnvironment) -> (r: String)
    ensures
        r@ == login_location_of(*env),
{
    let mut location = env.base_url.clone();
    location.append(LOGIN_PATH);
    location
}

/// A login request of the user `email`, with a fresh state token.
pub fn login_requested(email: String) -> (r: FlowEvent)
    ensures
        r matches FlowEvent::LoginRequested { email: e, state_token } && e == email
            && is_state_token(state_token@),
{
    let state_token = random_alphanumeric(STATE_TOKEN_LEN);
    FlowEvent::LoginRequested { email, state_token }
}

fn provider_step(url: Option<String>, next: FlowState) -> (r: (FlowState, FlowAction))
    ensures
        calls_provider(url.deep_view(), next, r.0, r.1),
{
    match url {
        Some(url) => (next, FlowAction::ProviderGet { url }),
        None => reject(BrokerError::ConfigurationInvalid),
    }
}

/// One step of the flow: from `s`, on `e`, the next state and what the caller has to do.
/// A completed flow hands the introspection result back as it came, `is_valid` and the
/// scopes included, for the caller to inspect. The stored state token is only read,
/// never deleted: it stays valid until the user's next login overwrites it.
pub fn step(env: &AppEnvironment, s: FlowState, e: FlowEvent) -> (r: (FlowState, FlowAction))
    ensures
        transition(*env, s, e, r.0, r.1),
{
    match s {
        FlowState::AwaitingLogin => match e {
            FlowEvent::LoginRequested { email, state_token } => {
                match authorize_url(env, &state_token) {
                    Some(location) => {
                        let key = state_key(email.as_str());
                        (
                            FlowState::StoringState { location },
                            FlowAction::StoreState { key, value: state_token },
                        )
                    },
                    None => reject(BrokerError::ConfigurationInvalid),
                }
            },
            _ => reject(BrokerError::UnexpectedEvent),
        },
        FlowState::StoringState { location } => match e {
            FlowEvent::StateStored(stored) => {
                if stored {
                    (
                        FlowState::AwaitingCallback,
                        FlowAction::Respond(
                            RedirectResponse::Redirect(LocationResponder { location }),
                        ),
                    )
                } else {
                    reject(BrokerError::CsrfStoreUnavailable)
                }
            },
            _ => reject(BrokerError::UnexpectedEvent),
        },
        FlowState::AwaitingCallback => match e {
            FlowEvent::CallbackReceived { email, code, state } => match (code, state) {
                (Some(code), Some(state)) => {
                    let key = state_key(email.as_str());
                    (FlowState::CheckingState { code, state }, FlowAction::ReadState { key })
                },
                _ => reject(BrokerError::MissingCallbackParameter),
            },
            _ => reject(BrokerError::UnexpectedEvent),
        },
        FlowState::CheckingState { code, state } => match e {
            FlowEvent::StateRead(reply) => match reply {
                StoreReply::Value(stored) => {
                    if stored == state {
                        provider_step(exchange_url(env, &code), FlowState::Exchanging)
                    } else {
                        reject(BrokerError::CsrfMismatch)
                    }
                },
                StoreReply::Missing => reject(BrokerError::CsrfMismatch),
                StoreReply::Unavailable => reject(BrokerError::CsrfStoreUnavailable),
            },
            _ => reject(BrokerError::UnexpectedEvent),
        },
        FlowState::Exchanging => match e {
            FlowEvent::TokenExchanged(reply) => match reply {
                ProviderReply::Parsed(token) => {
                    let url = introspect_url(env, &token.access_token);
                    provider_step(url, FlowState::Introspecting { token })
                },
                ProviderReply::Unparseable => {
                    let location = login_location(env);
                    (
                        FlowState::AwaitingLogin,
                        FlowAction::Respond(
                            RedirectResponse::Redirect(LocationResponder { location }),
                        ),
                    )
                },
                ProviderReply::Unreachable => reject(BrokerError::ProviderUnreachable),
            },
            _ => reject(BrokerError::UnexpectedEvent),
        },
        FlowState::Introspecting { token } => match e {
            FlowEvent::TokenIntrospected(reply) => match reply {
                ProviderReply::Parsed(graph) => (
                    FlowState::Completed,
                    FlowAction::Respond(
                        RedirectResponse::Success(
                            TempResponse { access_token: token, debug_graph: graph },
                        ),
                    ),
                ),
                ProviderReply::Unparseable => reject(BrokerError::ProviderResponseUnparseable),
                ProviderReply::Unreachable => reject(BrokerError::ProviderUnreachable),
            },
            _ => reject(BrokerError::UnexpectedEvent),
        },
        _ => reject(BrokerError::UnexpectedEvent),
    }
}

/// A callback whose `state` differs from the stored token, or for which no token is
/// stored, ends with `CsrfMismatch` answered by a 400, and asks for no call to the
/// provider's token exchange.
pub proof fn lemma_csrf_mismatch_never_exchanges(
    env: AppEnvironment,
    code: String,
    state: String,
    reply: StoreReply,
    s2: FlowState,
    a: FlowAction,
)
    requires
        transition(
            env,
            FlowState::CheckingState { code, state },
            FlowEvent::StateRead(reply),
            s2,
            a,
        ),
        match reply {
            StoreReply::Value(stored) => stored@ != state@,
            StoreReply::Missing => true,
            StoreReply::Unavailable => false,
        },
    ensures
        s2 == FlowState::Rejected(BrokerError::CsrfMismatch),
        a matches FlowAction::Respond(resp) && resp.status_of() == 400,
        !(a is ProviderGet),
{
}

/// A code exchange whose answer is not an access token sends the caller back to the
/// login route with a 307, not a 500, and the flow starts over.
pub proof fn lemma_unparseable_exchange_restarts_login(
    env: AppEnvironment,
    s2: FlowState,
    a: FlowAction,
)
    requires
        transition(
            env,
            FlowState::Exchanging,
            FlowEvent::TokenExchanged(ProviderReply::Unparseable),
            s2,
            a,
        ),
    ensures
        s2 == FlowState::AwaitingLogin,
        a matches FlowAction::Respond(resp) && resp.status_of() == 307,
        a matches FlowAction::Respond(RedirectResponse::Redirect(l)) && l.location@
            == env.base_url@ + LOGIN_PATH@,
{
}

/// The login leg stores its state token under the user's key, and a callback of the same
/// user that brings that token back reads the same key and, finding the token there,
/// goes on to the code exchange (where the exchange URL can be built).
pub proof fn lemma_login_callback_round_trip(
    env: AppEnvironment,
    email: String,
    state_token: String,
    code: String,
    s1: FlowState,
    a1: FlowAction,
    s2: FlowState,
    a2: FlowAction,
    s3: FlowState,
    a3: FlowAction,
)
    requires
        transition(
            env,
            FlowState::AwaitingLogin,
            FlowEvent::LoginRequested { email, state_token },
            s1,
            a1,
        ),
        authorize_url_of(env, state_token@) is Some,
        transition(
            env,
            FlowState::AwaitingCallback,
            FlowEvent::CallbackReceived {
                email,
                code: Some(code),
                state: Some(state_token),
            },
            s2,
            a2,
        ),
        transition(env, s2, FlowEvent::StateRead(StoreReply::Value(state_token)), s3, a3),
    ensures
        a1 matches FlowAction::StoreState { key, value } && value == state_token
            && key@ == state_key_of(email@),
        a2 matches FlowAction::ReadState { key } && key@ == state_key_of(email@),
        exchange_url_of(env, code@) is Some ==> s3 == FlowState::Exchanging && (
        a3 matches FlowAction::ProviderGet { url } && Some(url@) == exchange_url_of(env, code@)),
{
}

} // verus!
