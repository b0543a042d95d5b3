//! Discord accounts: what the service reads of them and how it records them.

use vstd::prelude::*;
use crate::entity::user;
use crate::text::{joined, owned};

verus! {

/// The profile Discord returns for the signed-in account.
#[derive(Debug, Clone, PartialEq, Eq)]
pub struct DiscordUser {
    pub id: String,
    pub username: String,
    pub avatar: String,
    pub email: Option<String>,
}

/// Where Discord answers with the profile of the account a token belongs to.
pub open spec fn profile_url_text() -> Seq<char> {
    "https://discord.com/api/users/@me"@
}

/// The `Authorization` header value that presents `token` to Discord.
pub open spec fn bearer_text(token: Seq<char>) -> Seq<char> {
    "Bearer "@ + token
}

/// Where Discord serves the avatar image `avatar` of the account `id`.
pub open spec fn avatar_url_text(id: Seq<char>, avatar: Seq<char>) -> Seq<char> {
    "https://cdn.discordapp.com/avatars/"@ + id + "/"@ + avatar + ".png"@
}

/// The e-mail address recorded for an account: the one Discord gave, else the empty text.
pub open spec fn recorded_email(email: Option<String>) -> Seq<char> {
    match email {
        Some(e) => e@,
        None => Seq::empty(),
    }
}

/// The user row recorded for a Discord account, with identifier `id`.
pub open spec fn is_user_record(u: user::Model, profile: DiscordUser, id: u128) -> bool {
    &&& u.id == id
    &&& u.name@ == profile.username@
    &&& u.email@ == recorded_email(profile.email)
    &&& u.icon_path@ == avatar_url_text(profile.id@, profile.avatar@)
}

pub fn profile_url() -> (s: String)
    ensures
        s@ == profile_url_text(),
{
    owned("https://discord.com/api/users/@me")
}

pub fn bearer(token: &str) -> (s: String)
    ensures
        s@ == bearer_text(token@),
{
    joined("Bearer ", token)
}

pub fn avatar_url(id: &str, avatar: &str) -> (s: String)
    ensures
        s@ == avatar_url_text(id@, avatar@),
{
    let mut s = owned("https://cdn.discordapp.com/avatars/");
    s.append(id);
    s.append("/");
    s.append(avatar);
    s.append(".png");
    s
}

/// The user row for a Discord account: its user name, its e-mail address or the empty
/// text, and its avatar image.
pub fn user_record(profile: &DiscordUser, id: u128) -> (u: user::Model)
    ensures
        is_user_record(u, *profile, id),
{
    let email = match &profile.email {
        Some(e) => e.clone(),
        None => String::new(),
    };
    user::Model {
        id,
        name: profile.username.clone(),
        email,
        icon_path: avatar_url(profile.id.as_str(), profile.avatar.as_str()),
    }
}


/// The recorded user is named by the profile's user name and reached at its e-mail
/// address (or the empty text when Discord gave none), whether or not there is one; its
/// icon is the avatar image of the account.
pub proof fn user_record_keeps_the_user_name(u: user::Model, profile: DiscordUser, id: u128)
    requires
        is_user_record(u, profile, id),
    ensures
        u.id == id,
        u.name@ == profile.username@,
        profile.email is None ==> u.email@ == Seq::<char>::empty(),
        profile.email matches Some(e) ==> u.email@ == e@,
        u.icon_path@ == "https://cdn.discordapp.com/avatars/"@ + profile.id@ + "/"@ + profile.avatar@ + ".png"@,
{
}

} // verus!
