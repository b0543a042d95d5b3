//! The handlers that need no database: the greeting, sign-out, and the start of sign-in.

use vstd::prelude::*;
use crate::http::{internal_error, HttpError, Reply};
use crate::text::{joined, owned};

verus! {

/// The greeting of `GET /`: `Hello ` and the identity of a signed-in browser, or
/// `Hello anonymous`; a `500` carrying the error's text when the identity could not be read.
pub open spec fn is_greeting(identity: Option<Result<String, HttpError>>, r: Result<Reply, HttpError>) -> bool {
    match identity {
        None => r matches Ok(Reply::Text(t)) && t@ == "Hello anonymous"@,
        Some(Ok(id)) => r matches Ok(Reply::Text(t)) && t@ == "Hello "@ + id@,
        Some(Err(e)) => r matches Err(x) && x.status == 500 && x.message == e.message,
    }
}

/// `GET /`.
pub fn index(identity: Option<Result<String, HttpError>>) -> (r: Result<Reply, HttpError>)
    ensures
        is_greeting(identity, r),
{
    let id = match identity {
        None => owned("anonymous"),
        Some(Ok(id)) => id,
        Some(Err(err)) => return Err(internal_error(err.message)),
    };
    proof {
        reveal_strlit("anonymous");
        reveal_strlit("Hello ");
        reveal_strlit("Hello anonymous");
        assert("Hello "@ + "anonymous"@ =~= "Hello anonymous"@);
    }
    Ok(Reply::Text(joined("Hello ", id.as_str())))
}

/// `GET /logout`, once the identity has been dropped from the browser session: back to `/`.
pub fn logout() -> (r: Reply)
    ensures
        r matches Reply::Found(location) && location@ == "/"@,
{
    Reply::Found(owned("/"))
}

/// The settings the service reads at start-up to act as an OAuth client of Discord.
#[derive(Debug, Clone, PartialEq, Eq)]
pub struct OAuthSettings {
    pub client_id: String,
    pub client_secret: String,
    pub redirect_url: String,
}

/// Discord's authorization endpoint.
pub open spec fn discord_authorize_text() -> Seq<char> {
    "https://discord.com/api/oauth2/authorize"@
}

/// Discord's token endpoint.
pub open spec fn discord_token_text() -> Seq<char> {
    "https://discord.com/api/oauth2/token"@
}

/// The one permission the service asks for: the account's profile.
pub open spec fn identify_scope() -> Seq<char> {
    "identify"@
}

/// The URL-safe base64 alphabet without padding.
pub open spec fn is_base64url_char(c: char) -> bool {
    ('A' <= c <= 'Z') || ('a' <= c <= 'z') || ('0' <= c <= '9') || c == '-' || c == '_'
}

/// The text of the URL that `oauth2` 4 builds for an authorization request: client
/// `client_id` (with secret `client_secret`), authorization endpoint `auth_url`, token
/// endpoint `token_url`, redirect URL `redirect_url`, one scope `scope` and CSRF state
/// `state`; `None` where one of the three URLs does not parse.
pub uninterp spec fn oauth2_authorization_url(
    auth_url: Seq<char>,
    token_url: Seq<char>,
    client_id: Seq<char>,
    client_secret: Seq<char>,
    redirect_url: Seq<char>,
    scope: Seq<char>,
    state: Seq<char>,
) -> Option<Seq<char>>;

/// `oauth2::CsrfToken::new_random`, read back with `secret`.
///
/// Its source draws 16 random bytes and encodes them in URL-safe base64 without padding,
/// so the text has 22 characters of that alphabet; nothing else is claimed (it is random).
#[verifier::external_body]
fn random_csrf_state() -> (s: String)
    ensures
        s@.len() == 22,
        forall|i: int| 0 <= i < 22 ==> is_base64url_char(#[trigger] s@[i]),
{
    oauth2::CsrfToken::new_random().secret().clone()
}

/// `oauth2::AuthorizationRequest::url` for a `BasicClient` made of the given strings, with
/// the redirect URL set, the CSRF state `state` and the one scope `scope`.
///
/// The arguments go through `ClientId::new`, `ClientSecret::new`, `AuthUrl::new`,
/// `TokenUrl::new`, `RedirectUrl::new`, `CsrfToken::new` and `Scope::new`; a URL that does
/// not parse gives `None`. The URL itself is named (`oauth2_authorization_url`): it is the
/// authorization endpoint with `response_type`, `client_id`, `state`, `redirect_uri` and
/// `scope` appended in form encoding, which is not restated here.
#[verifier::external_body]
fn oauth2_url(
    auth_url: &str,
    token_url: &str,
    client_id: &str,
    client_secret: &str,
    redirect_url: &str,
    scope: &str,
    state: &str,
) -> (r: Option<String>)
    ensures
        match r {
            Some(u) => oauth2_authorization_url(auth_url@, token_url@, client_id@, client_secret@, redirect_url@, scope@, state@) == Some(u@),
            None => oauth2_authorization_url(auth_url@, token_url@, client_id@, client_secret@, redirect_url@, scope@, state@) is None,
        },
{
    let client = oauth2::basic::BasicClient::new(
        oauth2::ClientId::new(client_id.to_string()),
        Some(oauth2::ClientSecret::new(client_secret.to_string())),
        oauth2::AuthUrl::new(auth_url.to_string()).ok()?,
        Some(oauth2::TokenUrl::new(token_url.to_string()).ok()?),
    ).set_redirect_uri(oauth2::RedirectUrl::new(redirect_url.to_string()).ok()?);
    let request = client.authorize_url(|| oauth2::CsrfToken::new(state.to_string()));
    Some(request.add_scope(oauth2::Scope::new(scope.to_string())).url().0.to_string())
}

/// The authorization URL for these settings and this CSRF state: Discord's endpoints, the
/// settings' client and redirect URL, and the scope `identify`.
pub open spec fn discord_authorization_url(settings: OAuthSettings, state: Seq<char>) -> Option<Seq<char>> {
    oauth2_authorization_url(
        discord_authorize_text(),
        discord_token_text(),
        settings.client_id@,
        settings.client_secret@,
        settings.redirect_url@,
        identify_scope(),
        state,
    )
}

/// Discord's authorization endpoint, as text.
pub fn discord_authorize_url() -> (s: String)
    ensures
        s@ == discord_authorize_text(),
{
    owned("https://discord.com/api/oauth2/authorize")
}

/// Discord's token endpoint, as text.
pub fn discord_token_url() -> (s: String)
    ensures
        s@ == discord_token_text(),
{
    owned("https://discord.com/api/oauth2/token")
}

/// The authorization URL for these settings and this CSRF state, as oauth2 builds it;
/// `None` where the settings' redirect URL does not parse.
fn authorization_url(settings: &OAuthSettings, state: &str) -> (r: Option<String>)
    ensures
        match discord_authorization_url(*settings, state@) {
            Some(u) => r matches Some(location) && location@ == u,
            None => r is None,
        },
{
    let authorize = discord_authorize_url();
    let token = discord_token_url();
    oauth2_url(
        authorize.as_str(),
        token.as_str(),
        settings.client_id.as_str(),
        settings.client_secret.as_str(),
        settings.redirect_url.as_str(),
        "identify",
        state,
    )
}

/// The answer to `GET /login` once the state is drawn: `302 Found` to the authorization
/// URL. The settings' redirect URL must parse (the request cannot be served otherwise).
pub fn login_with_state(settings: &OAuthSettings, state: &str) -> (r: Reply)
    requires
        discord_authorization_url(*settings, state@) is Some,
    ensures
        r matches Reply::Found(location) && location@ == discord_authorization_url(*settings, state@).unwrap(),
{
    match authorization_url(settings, state) {
        Some(location) => Reply::Found(location),
        None => Reply::Found(String::new()),
    }
}

/// `GET /login`: sends the browser to Discord with a fresh random CSRF state; `None`
/// where the settings' redirect URL does not parse.
pub fn login(settings: &OAuthSettings) -> (r: Option<Reply>)
    ensures
        exists|state: Seq<char>| #![trigger discord_authorization_url(*settings, state)]
            state.len() == 22
            && (forall|i: int| 0 <= i < 22 ==> is_base64url_char(#[trigger] state[i]))
            && match discord_authorization_url(*settings, state) {
                Some(u) => r matches Some(Reply::Found(location)) && location@ == u,
                None => r is None,
            },
{
    let state = random_csrf_state();
    if authorization_url(settings, state.as_str()).is_none() {
        return None;
    }
    Some(login_with_state(settings, state.as_str()))
}


/// `GET /` greets a signed-in browser by its identity and any other as `anonymous`; an
/// identity that cannot be read is answered `500` with its error's text.
pub proof fn greeting_names_the_identity(identity: Option<Result<String, HttpError>>, r: Result<Reply, HttpError>)
    requires
        is_greeting(identity, r),
    ensures
        identity is None ==> (r matches Ok(Reply::Text(t)) && t@ == "Hello anonymous"@),
        identity matches Some(Ok(id)) ==> (r matches Ok(Reply::Text(t)) && t@ == "Hello "@ + id@),
        identity matches Some(Err(e)) ==> (r matches Err(x) && x.status == 500 && x.message@ == e.message@),
{
}

/// Sign-in goes to Discord's authorization endpoint with Discord's token endpoint, the
/// settings' client, secret and redirect URL, the one scope `identify` and the state.
pub proof fn login_asks_discord_for_identify(settings: OAuthSettings, state: Seq<char>)
    ensures
        discord_authorization_url(settings, state) == oauth2_authorization_url(
            "https://discord.com/api/oauth2/authorize"@,
            "https://discord.com/api/oauth2/token"@,
            settings.client_id@,
            settings.client_secret@,
            settings.redirect_url@,
            "identify"@,
            state,
        ),
{
}

} // verus!
