use unei::http::{HttpError, Reply};
use unei::pages::{index, login, login_with_state, logout, OAuthSettings};

fn settings(redirect: &str) -> OAuthSettings {
    OAuthSettings {
        client_id: "1234".to_string(),
        client_secret: "s3cret".to_string(),
        redirect_url: redirect.to_string(),
    }
}

fn text(r: Result<Reply, HttpError>) -> String {
    match r {
        Ok(Reply::Text(t)) => t,
        _ => panic!("expected a text answer"),
    }
}

#[test]
fn index_greets_anonymous_visitors() {
    assert_eq!(text(index(None)), "Hello anonymous");
}

#[test]
fn index_greets_signed_in_identity() {
    assert_eq!(text(index(Some(Ok("42".to_string())))), "Hello 42");
}

#[test]
fn index_reports_unreadable_identity_as_internal_error() {
    let err = HttpError { status: 401, message: "There is no identity information attached to the current session".to_string() };
    match index(Some(Err(err))) {
        Err(e) => {
            assert_eq!(e.status, 500);
            assert_eq!(e.message, "There is no identity information attached to the current session");
        }
        Ok(_) => panic!("expected an error"),
    }
}

#[test]
fn logout_goes_home() {
    match logout() {
        Reply::Found(location) => assert_eq!(location, "/"),
        _ => panic!("expected a redirect"),
    }
}

#[test]
fn login_redirects_to_discord_with_state_and_scope() {
    let r = login_with_state(&settings("http://localhost:8000/auth/callback"), "abc_DEF-123");
    match r {
        Reply::Found(location) => assert_eq!(
            location,
            "https://discord.com/api/oauth2/authorize?response_type=code&client_id=1234&state=abc_DEF-123&redirect_uri=http%3A%2F%2Flocalhost%3A8000%2Fauth%2Fcallback&scope=identify"
        ),
        _ => panic!("expected a redirect"),
    }
}

#[test]
fn login_with_unparsable_redirect_url_gives_nothing() {
    assert!(login(&settings("not a url")).is_none());
}

#[test]
fn login_draws_a_fresh_state_each_time() {
    let first = match login(&settings("http://localhost/cb")) {
        Some(Reply::Found(location)) => location,
        _ => panic!("expected a redirect"),
    };
    let second = match login(&settings("http://localhost/cb")) {
        Some(Reply::Found(location)) => location,
        _ => panic!("expected a redirect"),
    };
    assert_ne!(first, second);
    let state = first.split("state=").nth(1).unwrap().split('&').next().unwrap();
    assert_eq!(state.len(), 22);
    assert!(state.chars().all(|c| c.is_ascii_alphanumeric() || c == '-' || c == '_'));
}
