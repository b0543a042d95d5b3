use unei::calendar::parse_event_date;
use unei::entity::session;
use unei::flow::groups::GroupsFlow;
use unei::flow::{Effect, Feedback};
use unei::ids::uuid_string;

/// The identifier of the group row a creation request would insert.
fn drawn_group_id() -> u128 {
    let body = unei::group_scheme::Group { name: "g".to_string(), icon_path: None, theme: "#fff".to_string() };
    let f = GroupsFlow::new(body).advance(Feedback::Identity(Some(Ok("k".to_string())))).0;
    let f = f.advance(Feedback::GroupRows(Ok(0))).0;
    let row = session::Model { id: 1, session_id: "k".to_string(), user_id: 2 };
    match f.advance(Feedback::SessionRow(Ok(Some(row)))).1 {
        Effect::InsertGroup(g) => g.id,
        other => panic!("expected a group insert, got {other:?}"),
    }
}

#[test]
fn fresh_ids_are_version_7_uuids() {
    let id = drawn_group_id();
    let u = uuid::Uuid::from_u128(id);
    assert_eq!(u.get_version_num(), 7);
    assert_eq!(u.get_variant(), uuid::Variant::RFC4122);
    assert_ne!(drawn_group_id(), id);
}

#[test]
fn uuid_text_is_hyphenated_lower_case() {
    let id: u128 = 0x67e5_5044_10b1_426f_9247_bb68_0e5f_e0c8;
    assert_eq!(uuid_string(id), "67e55044-10b1-426f-9247-bb680e5fe0c8");
}

#[test]
fn uuid_text_matches_the_uuid_crate() {
    for id in [0u128, 1, u128::MAX, 0x0123_4567_89ab_cdef_fedc_ba98_7654_3210, drawn_group_id()] {
        assert_eq!(uuid_string(id), uuid::Uuid::from_u128(id).to_string());
    }
}

#[test]
fn event_dates_are_read_as_year_month_day() {
    let d = parse_event_date("2024-09-15").unwrap();
    assert_eq!((d.year, d.month, d.day), (2024, 9, 15));
}

#[test]
fn impossible_event_dates_are_refused() {
    assert!(parse_event_date("2024-02-30").is_none());
    assert!(parse_event_date("2024/09/15").is_none());
    assert!(parse_event_date("tomorrow").is_none());
}

#[test]
fn leap_days_are_dates() {
    let d = parse_event_date("2024-02-29").unwrap();
    assert_eq!((d.year, d.month, d.day), (2024, 2, 29));
    assert!(parse_event_date("2023-02-29").is_none());
}
