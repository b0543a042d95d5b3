use unei::calendar::CalendarDate;
use unei::discord::DiscordUser;
use unei::entity::{event, group, member, session, user};
use unei::event_scheme::{Event, EventListResponse};
use unei::flow::callback::CallbackFlow;
use unei::flow::event_list::EventListFlow;
use unei::flow::events::EventsFlow;
use unei::flow::groups::GroupsFlow;
use unei::flow::{Effect, Feedback};
use unei::http::{Failure, HttpError, Reply};

fn group_body() -> unei::group_scheme::Group {
    unei::group_scheme::Group { name: "Climbers".to_string(), icon_path: Some("/icons/c.png".to_string()), theme: "#112233".to_string() }
}

fn event_body(date: &str) -> Event {
    Event {
        name: "Session".to_string(),
        description: "Bouldering night".to_string(),
        tags: vec!["sport".to_string()],
        location: "Gym".to_string(),
        min_participants: 2,
        max_participants: 10,
        event_date: date.to_string(),
    }
}

fn failure(text: &str) -> Failure {
    Failure { display: format!("display: {text}"), debug: format!("Debug({text})") }
}

fn session_row(user_id: u128) -> session::Model {
    session::Model { id: 9, session_id: "key-1".to_string(), user_id }
}

fn error_of(effect: Effect) -> HttpError {
    match effect {
        Effect::Respond(Err(e)) => e,
        other => panic!("expected an error answer, got {other:?}"),
    }
}

#[test]
fn group_creation_makes_the_creator_admin() {
    let f = GroupsFlow::new(group_body());
    let (f, e) = f.step(Feedback::Identity(Some(Ok("key-1".to_string()))), 100);
    assert_eq!(e, Effect::ListGroups);
    let (f, e) = f.step(Feedback::GroupRows(Ok(3)), 101);
    assert_eq!(e, Effect::FindSession("key-1".to_string()));
    let (f, e) = f.step(Feedback::SessionRow(Ok(Some(session_row(7)))), 102);
    assert_eq!(
        e,
        Effect::InsertGroup(group::Model {
            id: 102,
            name: "Climbers".to_string(),
            icon_path: Some("/icons/c.png".to_string()),
            theme: "#112233".to_string(),
        })
    );
    let (f, e) = f.step(Feedback::Inserted(Ok(102)), 103);
    assert_eq!(e, Effect::InsertMember(member::Model { id: 103, user_id: 7, is_admin: true, group_id: 102 }));
    let (f, e) = f.step(Feedback::Inserted(Ok(103)), 104);
    assert_eq!(e, Effect::ListGroups);
    let (f, e) = f.step(Feedback::GroupRows(Ok(4)), 105);
    assert_eq!(e, Effect::Respond(Ok(Reply::CreatedId(102))));
    assert_eq!(f, GroupsFlow::Done);
}

#[test]
fn group_creation_without_identity_is_unauthorized() {
    let (f, e) = GroupsFlow::new(group_body()).step(Feedback::Identity(None), 1);
    let e = error_of(e);
    assert_eq!((e.status, e.message.as_str()), (401, "Unauthorized"));
    assert_eq!(f, GroupsFlow::Done);
}

#[test]
fn group_creation_passes_identity_errors_on() {
    let err = HttpError { status: 500, message: "lost".to_string() };
    let (_, e) = GroupsFlow::new(group_body()).step(Feedback::Identity(Some(Err(err.clone()))), 1);
    assert_eq!(error_of(e), err);
}

#[test]
fn group_creation_reports_each_database_failure() {
    let start = || GroupsFlow::new(group_body()).step(Feedback::Identity(Some(Ok("k".to_string()))), 1).0;
    let (_, e) = start().step(Feedback::GroupRows(Err(failure("conn"))), 2);
    assert_eq!(error_of(e), HttpError { status: 500, message: "Failed to get groups: Debug(conn)".to_string() });

    let listed = start().step(Feedback::GroupRows(Ok(0)), 2).0;
    let (_, e) = GroupsFlow::step(listed, Feedback::SessionRow(Err(failure("q"))), 3);
    assert_eq!(error_of(e), HttpError { status: 500, message: "Failed to get session: Debug(q)".to_string() });

    let listed = start().step(Feedback::GroupRows(Ok(0)), 2).0;
    let (f, e) = listed.step(Feedback::SessionRow(Ok(None)), 3);
    assert_eq!(error_of(e), HttpError { status: 401, message: "Unauthorized".to_string() });
    assert_eq!(f, GroupsFlow::Done);

    let found = start().step(Feedback::GroupRows(Ok(0)), 2).0.step(Feedback::SessionRow(Ok(Some(session_row(1)))), 3).0;
    let (_, e) = found.step(Feedback::Inserted(Err(failure("dup"))), 4);
    assert_eq!(error_of(e), HttpError { status: 500, message: "Failed to insert group: Debug(dup)".to_string() });

    let grouped = start().step(Feedback::GroupRows(Ok(0)), 2).0
        .step(Feedback::SessionRow(Ok(Some(session_row(1)))), 3).0
        .step(Feedback::Inserted(Ok(3)), 4).0;
    let (_, e) = grouped.step(Feedback::Inserted(Err(failure("fk"))), 5);
    assert_eq!(error_of(e), HttpError { status: 500, message: "Failed to insert member: Debug(fk)".to_string() });
}

#[test]
fn feedback_out_of_turn_aborts() {
    let (f, e) = GroupsFlow::new(group_body()).step(Feedback::Begin, 1);
    assert_eq!(e, Effect::Abort("unexpected feedback".to_string()));
    assert_eq!(f, GroupsFlow::Done);
    let (_, e) = GroupsFlow::Done.step(Feedback::GroupRows(Ok(1)), 1);
    assert_eq!(e, Effect::Abort("unexpected feedback".to_string()));
}

#[test]
fn event_is_recorded_for_the_session_user() {
    let f = EventsFlow::new(event_body("2024-09-20"));
    let (f, e) = f.step(Feedback::Identity(Some(Ok("key-1".to_string()))), 1);
    assert_eq!(e, Effect::FindSession("key-1".to_string()));
    let (f, e) = f.step(Feedback::SessionRow(Ok(Some(session_row(7)))), 50);
    assert_eq!(
        e,
        Effect::InsertEvent(event::Model {
            id: 50,
            description: "Bouldering night".to_string(),
            event_date: CalendarDate { year: 2024, month: 9, day: 20 },
            comment_id: None,
            tag_id: None,
            reaction_id: None,
            author_id: Some(7),
        })
    );
    let (f, e) = f.step(Feedback::Inserted(Ok(50)), 51);
    assert_eq!(e, Effect::Respond(Ok(Reply::Created)));
    assert_eq!(f, EventsFlow::Done);
}

#[test]
fn event_with_impossible_day_aborts() {
    let f = EventsFlow::new(event_body("2024-13-01"));
    let (f, _) = f.advance(Feedback::Identity(Some(Ok("k".to_string()))));
    let (f, e) = f.advance(Feedback::SessionRow(Ok(Some(session_row(7)))));
    assert_eq!(e, Effect::Abort("event_date is not a YYYY-MM-DD date".to_string()));
    assert_eq!(f, EventsFlow::Done);
}

#[test]
fn event_insert_failure_is_reported() {
    let f = EventsFlow::new(event_body("2024-09-20"))
        .step(Feedback::Identity(Some(Ok("k".to_string()))), 1).0
        .step(Feedback::SessionRow(Ok(Some(session_row(7)))), 2).0;
    let (_, e) = f.step(Feedback::Inserted(Err(failure("x"))), 3);
    assert_eq!(error_of(e), HttpError { status: 500, message: "Failed to insert event: Debug(x)".to_string() });
}

#[test]
fn events_without_identity_are_unauthorized() {
    let (_, e) = EventsFlow::new(event_body("2024-09-20")).step(Feedback::Identity(None), 1);
    assert_eq!(error_of(e), HttpError { status: 401, message: "Unauthorized".to_string() });
    let (_, e) = EventListFlow::new().step(Feedback::Identity(None));
    assert_eq!(error_of(e), HttpError { status: 401, message: "Unauthorized".to_string() });
}

fn row(id: u128, description: &str) -> event::Model {
    event::Model {
        id,
        description: description.to_string(),
        event_date: CalendarDate { year: 2024, month: 1, day: 2 },
        comment_id: None,
        tag_id: None,
        reaction_id: None,
        author_id: None,
    }
}

#[test]
fn listing_shows_every_event_in_order() {
    let f = EventListFlow::new();
    let (f, e) = f.step(Feedback::Identity(Some(Ok("k".to_string()))));
    assert_eq!(e, Effect::FindSession("k".to_string()));
    let (f, e) = f.step(Feedback::SessionRow(Ok(Some(session_row(1)))));
    assert_eq!(e, Effect::ListEvents);
    let rows = vec![row(0x0191_f2c4_0000_7000_8000_0000_0000_0001, "first"), row(2, "second")];
    let (f, e) = f.step(Feedback::EventRows(Ok(rows)));
    assert_eq!(
        e,
        Effect::Respond(Ok(Reply::Events(vec![
            EventListResponse {
                id: "0191f2c4-0000-7000-8000-000000000001".to_string(),
                name: "Test".to_string(),
                description: "first".to_string(),
            },
            EventListResponse {
                id: "00000000-0000-0000-0000-000000000002".to_string(),
                name: "Test".to_string(),
                description: "second".to_string(),
            },
        ])))
    );
    assert_eq!(f, EventListFlow::Done);
}

#[test]
fn listing_of_no_events_is_empty_and_failures_are_reported() {
    let f = EventListFlow::new().step(Feedback::Identity(Some(Ok("k".to_string())))).0
        .step(Feedback::SessionRow(Ok(Some(session_row(1))))).0;
    assert_eq!(f.clone().step(Feedback::EventRows(Ok(vec![]))).1, Effect::Respond(Ok(Reply::Events(vec![]))));
    let (_, e) = f.step(Feedback::EventRows(Err(failure("gone"))));
    assert_eq!(error_of(e), HttpError { status: 500, message: "Failed to get events: Debug(gone)".to_string() });
}

fn profile(email: Option<&str>) -> DiscordUser {
    DiscordUser {
        id: "80351110224678912".to_string(),
        username: "nelly".to_string(),
        avatar: "8342729096ea3675442027381ff50dfe".to_string(),
        email: email.map(|e| e.to_string()),
    }
}

#[test]
fn sign_in_records_the_discord_account() {
    let f = CallbackFlow::new("the-code".to_string());
    let (f, e) = f.step(Feedback::Begin, 1);
    assert_eq!(e, Effect::ExchangeCode("the-code".to_string()));
    let (f, e) = f.step(Feedback::Token(Ok("tok".to_string())), 2);
    assert_eq!(
        e,
        Effect::FetchProfile {
            url: "https://discord.com/api/users/@me".to_string(),
            authorization: "Bearer tok".to_string(),
        }
    );
    let (f, e) = f.step(Feedback::Profile(Ok(profile(Some("nelly@example.com")))), 3);
    assert_eq!(
        e,
        Effect::InsertUser(user::Model {
            id: 3,
            name: "nelly".to_string(),
            email: "nelly@example.com".to_string(),
            icon_path: "https://cdn.discordapp.com/avatars/80351110224678912/8342729096ea3675442027381ff50dfe.png".to_string(),
        })
    );
    let (f, e) = f.step(Feedback::Inserted(Ok(3)), 4);
    assert_eq!(e, Effect::SignIn("80351110224678912".to_string()));
    let (f, e) = f.step(Feedback::SignedIn(Ok("80351110224678912".to_string())), 5);
    assert_eq!(e, Effect::Respond(Ok(Reply::Found("/".to_string()))));
    assert_eq!(f, CallbackFlow::Done);
}

#[test]
fn sign_in_without_email_records_an_empty_address() {
    let f = CallbackFlow::new("c".to_string()).step(Feedback::Begin, 1).0
        .step(Feedback::Token(Ok("t".to_string())), 2).0;
    match f.step(Feedback::Profile(Ok(profile(None))), 3).1 {
        Effect::InsertUser(u) => assert_eq!(u.email, ""),
        other => panic!("expected a user insert, got {other:?}"),
    }
}

#[test]
fn sign_in_failures_are_internal_errors_with_the_failure_text() {
    let (_, e) = CallbackFlow::new("c".to_string()).step(Feedback::Begin, 1).0
        .step(Feedback::Token(Err(failure("bad code"))), 2);
    assert_eq!(error_of(e), HttpError { status: 500, message: "display: bad code".to_string() });

    let (_, e) = CallbackFlow::Profile.step(Feedback::Profile(Err(failure("timeout"))), 2);
    assert_eq!(error_of(e), HttpError { status: 500, message: "display: timeout".to_string() });

    let (_, e) = CallbackFlow::UserInserted { discord_id: "1".to_string() }.step(Feedback::Inserted(Err(failure("dup"))), 2);
    assert_eq!(error_of(e), HttpError { status: 500, message: "display: dup".to_string() });

    let err = HttpError { status: 401, message: "session insert failed".to_string() };
    let (_, e) = CallbackFlow::SignedIn.step(Feedback::SignedIn(Err(err.clone())), 2);
    assert_eq!(error_of(e), err);
}

#[test]
fn unknown_sessions_are_unauthorized_everywhere() {
    let (f, e) = EventsFlow::Session { body: event_body("2024-09-20") }.step(Feedback::SessionRow(Ok(None)), 1);
    assert_eq!(error_of(e), HttpError { status: 401, message: "Unauthorized".to_string() });
    assert_eq!(f, EventsFlow::Done);
    let (f, e) = EventListFlow::Session.step(Feedback::SessionRow(Ok(None)));
    assert_eq!(error_of(e), HttpError { status: 401, message: "Unauthorized".to_string() });
    assert_eq!(f, EventListFlow::Done);
    let (_, e) = EventListFlow::Session.step(Feedback::SessionRow(Err(failure("db"))));
    assert_eq!(error_of(e), HttpError { status: 500, message: "Failed to get session: Debug(db)".to_string() });
}
