use auth_gateway::environment::certs_url;
use auth_gateway::facebook::{LocationResponder, RedirectResponse};
use auth_gateway::index;

#[test]
fn index_says_neat() {
    assert_eq!(index(), "neat");
}

#[test]
fn certs_url_names_the_team() {
    assert_eq!(
        certs_url("acme"),
        "https://acme.cloudflareaccess.com/cdn-cgi/access/certs"
    );
}

#[test]
fn response_statuses() {
    assert_eq!(RedirectResponse::<u8>::InternalServerError("x").status(), 500);
    assert_eq!(RedirectResponse::<u8>::Unauthorized("").status(), 400);
    let redirect = RedirectResponse::<u8>::Redirect(LocationResponder { location: "/".to_string() });
    assert_eq!(redirect.status(), 307);
    assert_eq!(RedirectResponse::Success(1u8).status(), 200);
}
