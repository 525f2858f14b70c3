use vstd::prelude::*;

verus! {

/// The gateway's configuration.
#[derive(Clone, Debug)]
pub struct AppEnvironment {
    pub base_url: String,
    pub facebook_client_id: String,
    pub facebook_client_secret: String,
    pub facebook_required_scopes: String,
    pub mongodb_url: String,
    pub redis_url: String,
    pub sentry_dsn: String,
    pub cf_access_aud: String,
    pub cf_access_team: String,
    pub cf_access_certs_url: String,
}

/// The address of the key set that the edge layer publishes for `team`.
pub open spec fn certs_url_of(team: Seq<char>) -> Seq<char> {
    "https://"@ + team + ".cloudflareaccess.com/cdn-cgi/access/certs"@
}

/// The address of the key set that the edge layer publishes for `team`.
pub fn certs_url(team: &str) -> (r: String)
    ensures
        r@ == certs_url_of(team@),
{
    let mut url = String::from_str("https://");
    url.append(team);
    url.append(".cloudflareaccess.com/cdn-cgi/access/certs");
    url
}

} // verus!
