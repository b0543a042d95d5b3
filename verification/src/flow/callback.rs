//! `GET /auth/callback`: Discord sends the browser back with an authorization code; the
//! service fetches the account, records it as a user, signs the browser in and sends it
//! to `/`.

use vstd::prelude::*;
use crate::ids::{fresh_id, is_v7};
use crate::discord::{bearer, bearer_text, is_user_record, profile_url, profile_url_text, user_record};
use crate::flow::{is_protocol_abort, protocol_abort, Effect, Feedback};
use crate::http::{internal_error, is_internal, Reply};
use crate::text::owned;

verus! {

/// Where the sign-in handler stands.
#[derive(Debug, Clone, PartialEq, Eq)]
pub enum CallbackFlow {
    /// The request has arrived with this authorization code.
    Start { code: String },
    /// Waiting for the access token.
    Token,
    /// Waiting for the Discord profile.
    Profile,
    /// Waiting for the new user row of the Discord account `discord_id`.
    UserInserted { discord_id: String },
    /// Waiting for the browser session to take the identity.
    SignedIn,
    Done,
}

/// The answer that sends the browser to the home page.
pub open spec fn is_home_redirect(effect: crate::flow::Effect) -> bool {
    effect matches Effect::Respond(Ok(Reply::Found(location))) && location@ == "/"@
}

/// The handler answers `500 Internal Server Error` with `message` and is done.
pub open spec fn fails_internally(next: CallbackFlow, effect: Effect, message: Seq<char>) -> bool {
    &&& next is Done
    &&& effect matches Effect::Respond(Err(e)) && is_internal(e, message)
}

/// The answer that sends the browser to the home page with `302 Found`.
pub fn home_redirect() -> (effect: Effect)
    ensures
        is_home_redirect(effect),
{
    Effect::Respond(Ok(Reply::Found(owned("/"))))
}

impl CallbackFlow {
    pub fn new(code: String) -> (f: CallbackFlow)
        ensures
            f == (CallbackFlow::Start { code }),
    {
        CallbackFlow::Start { code }
    }

    /// How many outside operations the handler may still ask for, at most.
    pub open spec fn rank(self) -> nat {
        match self {
            CallbackFlow::Start { .. } => 5,
            CallbackFlow::Token => 4,
            CallbackFlow::Profile => 3,
            CallbackFlow::UserInserted { .. } => 2,
            CallbackFlow::SignedIn => 1,
            CallbackFlow::Done => 0,
        }
    }

    /// One step of the handler: from `self`, on `fb`, with `id` as the identifier for a
    /// row it creates, it moves to `next` and asks for `effect`.
    pub open spec fn steps_to(self, fb: Feedback, id: u128, next: CallbackFlow, effect: Effect) -> bool {
        match (self, fb) {
            (CallbackFlow::Start { code }, Feedback::Begin) => next is Token && effect == Effect::ExchangeCode(code),
            (CallbackFlow::Token, Feedback::Token(r)) => match r {
                Ok(token) => {
                    &&& next is Profile
                    &&& effect matches Effect::FetchProfile { url, authorization }
                        && url@ == profile_url_text() && authorization@ == bearer_text(token@)
                },
                Err(f) => fails_internally(next, effect, f.display@),
            },
            (CallbackFlow::Profile, Feedback::Profile(r)) => match r {
                Ok(profile) => {
                    &&& next == (CallbackFlow::UserInserted { discord_id: profile.id })
                    &&& effect matches Effect::InsertUser(u) && is_user_record(u, profile, id)
                },
                Err(f) => fails_internally(next, effect, f.display@),
            },
            (CallbackFlow::UserInserted { discord_id }, Feedback::Inserted(r)) => match r {
                Ok(_) => next is SignedIn && effect == Effect::SignIn(discord_id),
                Err(f) => fails_internally(next, effect, f.display@),
            },
            (CallbackFlow::SignedIn, Feedback::SignedIn(r)) => match r {
                Ok(_) => next is Done && is_home_redirect(effect),
                Err(e) => next is Done && effect == Effect::Respond(Err(e)),
            },
            _ => next is Done && is_protocol_abort(effect),
        }
    }

    /// Takes one step with a new version 7 identifier for the row it may create.
    pub fn advance(self, fb: Feedback) -> (r: (CallbackFlow, Effect))
        ensures
            exists|id: u128| is_v7(id) && self.steps_to(fb, id, r.0, r.1),
    {
        let id = fresh_id();
        self.step(fb, id)
    }

    /// Takes one step (see `steps_to`).
    pub fn step(self, fb: Feedback, id: u128) -> (r: (CallbackFlow, Effect))
        ensures
            self.steps_to(fb, id, r.0, r.1),
    {
        match self {
            CallbackFlow::Start { code } => match fb {
                Feedback::Begin => (CallbackFlow::Token, Effect::ExchangeCode(code)),
                _ => (CallbackFlow::Done, protocol_abort()),
            },
            CallbackFlow::Token => match fb {
                Feedback::Token(Ok(token)) => (
                    CallbackFlow::Profile,
                    Effect::FetchProfile { url: profile_url(), authorization: bearer(token.as_str()) },
                ),
                Feedback::Token(Err(f)) => (CallbackFlow::Done, Effect::Respond(Err(internal_error(f.display)))),
                _ => (CallbackFlow::Done, protocol_abort()),
            },
            CallbackFlow::Profile => match fb {
                Feedback::Profile(Ok(profile)) => {
                    let row = user_record(&profile, id);
                    (CallbackFlow::UserInserted { discord_id: profile.id }, Effect::InsertUser(row))
                },
                Feedback::Profile(Err(f)) => (CallbackFlow::Done, Effect::Respond(Err(internal_error(f.display)))),
                _ => (CallbackFlow::Done, protocol_abort()),
            },
            CallbackFlow::UserInserted { discord_id } => match fb {
                Feedback::Inserted(Ok(_)) => (CallbackFlow::SignedIn, Effect::SignIn(discord_id)),
                Feedback::Inserted(Err(f)) => (CallbackFlow::Done, Effect::Respond(Err(internal_error(f.display)))),
                _ => (CallbackFlow::Done, protocol_abort()),
            },
            CallbackFlow::SignedIn => match fb {
                Feedback::SignedIn(Ok(_)) => (CallbackFlow::Done, home_redirect()),
                Feedback::SignedIn(Err(e)) => (CallbackFlow::Done, Effect::Respond(Err(e))),
                _ => (CallbackFlow::Done, protocol_abort()),
            },
            CallbackFlow::Done => (CallbackFlow::Done, protocol_abort()),
        }
    }
}

/// Every step of the sign-in handler either ends it with an answer or an abort, or brings
/// it closer to its end.
pub proof fn callback_step_progresses(f: CallbackFlow, fb: Feedback, id: u128, next: CallbackFlow, effect: Effect)
    requires
        f.steps_to(fb, id, next, effect),
    ensures
        f is Done || next.rank() < f.rank(),
        next is Done <==> (effect is Respond || effect is Abort),
{
}

/// Signing in through Discord: along a request where every outside operation succeeds,
/// the handler exchanges the request's code, presents the token it got to Discord,
/// records the profile Discord returned as a user, signs the browser in as that Discord
/// account, and sends the browser to `/`.
pub proof fn sign_in_records_the_account(
    code: String,
    token: String,
    profile: crate::discord::DiscordUser,
    user_id: u128,
    session_key: String,
    ids: Seq<u128>,
    flows: Seq<CallbackFlow>,
    effects: Seq<Effect>,
)
    requires
        ids.len() == 5,
        flows.len() == 5,
        effects.len() == 5,
        (CallbackFlow::Start { code }).steps_to(Feedback::Begin, ids[0], flows[0], effects[0]),
        flows[0].steps_to(Feedback::Token(Ok(token)), ids[1], flows[1], effects[1]),
        flows[1].steps_to(Feedback::Profile(Ok(profile)), ids[2], flows[2], effects[2]),
        flows[2].steps_to(Feedback::Inserted(Ok(user_id)), ids[3], flows[3], effects[3]),
        flows[3].steps_to(Feedback::SignedIn(Ok(session_key)), ids[4], flows[4], effects[4]),
    ensures
        effects[0] == Effect::ExchangeCode(code),
        effects[1] matches Effect::FetchProfile { url, authorization }
            && url@ == profile_url_text() && authorization@ == bearer_text(token@),
        effects[2] matches Effect::InsertUser(u) && is_user_record(u, profile, ids[2]),
        effects[3] == Effect::SignIn(profile.id),
        is_home_redirect(effects[4]),
        flows[4] is Done,
        effects[1] matches Effect::FetchProfile { url, authorization }
            && url@ == "https://discord.com/api/users/@me"@ && authorization@ == "Bearer "@ + token@,
        effects[2] matches Effect::InsertUser(u)
            && u.id == ids[2]
            && u.name@ == profile.username@
            && u.email@ == (match profile.email { Some(e) => e@, None => Seq::<char>::empty() })
            && u.icon_path@ == "https://cdn.discordapp.com/avatars/"@ + profile.id@ + "/"@ + profile.avatar@ + ".png"@,
        effects[4] matches Effect::Respond(Ok(Reply::Found(location))) && location@ == "/"@,
{
}


/// Failures of the sign-in are answered `500 Internal Server Error` with the failure's
/// `Display` text; an identity error is answered as it is.
pub proof fn sign_in_failures_are_reported(
    f: crate::http::Failure,
    e: crate::http::HttpError,
    discord_id: String,
    id: u128,
    r: Seq<(CallbackFlow, Effect)>,
)
    requires
        r.len() == 4,
        CallbackFlow::Token.steps_to(Feedback::Token(Err(f)), id, r[0].0, r[0].1),
        CallbackFlow::Profile.steps_to(Feedback::Profile(Err(f)), id, r[1].0, r[1].1),
        (CallbackFlow::UserInserted { discord_id }).steps_to(Feedback::Inserted(Err(f)), id, r[2].0, r[2].1),
        CallbackFlow::SignedIn.steps_to(Feedback::SignedIn(Err(e)), id, r[3].0, r[3].1),
    ensures
        r[0].1 matches Effect::Respond(Err(x)) && x.status == 500 && x.message@ == f.display@,
        r[1].1 matches Effect::Respond(Err(x)) && x.status == 500 && x.message@ == f.display@,
        r[2].1 matches Effect::Respond(Err(x)) && x.status == 500 && x.message@ == f.display@,
        r[3].1 == Effect::Respond(Err(e)),
        forall|i: int| 0 <= i < 4 ==> (#[trigger] r[i]).0 is Done,
{
}

} // verus!
