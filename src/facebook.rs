use vstd::prelude::*;

verus! {

/// The access token that the provider's code exchange returns.
#[derive(Clone, Debug)]
pub struct FacebookAccessToken {
    pub access_token: String,
    pub token_type: String,
    pub expires_in: u32,
}

/// One granted scope, with the ids of the objects it is restricted to.
#[derive(Clone, Debug)]
pub struct FacebookGranularScope {
    pub scope: String,
    pub target_ids: Vec<String>,
}

/// What the provider's introspection endpoint says of an access token.
#[derive(Clone, Debug)]
pub struct FacebookDebugTokenGraph {
    pub app_id: String,
    pub type_: String,
    pub application: String,
    pub data_access_expires_at: i32,
    pub expires_at: i32,
    pub is_valid: bool,
    pub issued_at: i32,
    pub scopes: Vec<String>,
    pub granular_scopes: Vec<FacebookGranularScope>,
    pub user_id: String,
}

/// The introspection endpoint's answer, which wraps the result in `data`.
#[derive(Clone, Debug)]
pub struct FacebookDebugTokenGraphContainer {
    pub data: FacebookDebugTokenGraph,
}

/// The result of a completed flow: the access token and what introspection said of it.
#[derive(Clone, Debug)]
pub struct TempResponse {
    pub access_token: FacebookAccessToken,
    pub debug_graph: FacebookDebugTokenGraphContainer,
}

/// A temporary redirect to `location`.
#[derive(Clone, Debug)]
pub struct LocationResponder {
    pub location: String,
}

/// A response of the OAuth routes.
#[derive(Clone, Debug)]
pub enum RedirectResponse<T> {
    InternalServerError(&'static str),
    Unauthorized(&'static str),
    Redirect(LocationResponder),
    Success(T),
}

impl<T> RedirectResponse<T> {
    pub open spec fn status_of(&self) -> u16 {
        match self {
            RedirectResponse::InternalServerError(_) => 500,
            RedirectResponse::Unauthorized(_) => 400,
            RedirectResponse::Redirect(_) => 307,
            RedirectResponse::Success(_) => 200,
        }
    }

    /// The HTTP status of the response.
    pub fn status(&self) -> (r: u16)
        ensures
            r == self.status_of(),
    {
        match self {
            RedirectResponse::InternalServerError(_) => 500,
            RedirectResponse::Unauthorized(_) => 400,
            RedirectResponse::Redirect(_) => 307,
            RedirectResponse::Success(_) => 200,
        }
    }
}

} // verus!
