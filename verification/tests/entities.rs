use unei::entity::user::Relation as UserRelation;
use unei::entity::event::Relation as EventRelation;
use unei::entity::relation::{RelationKind, ForeignKeyAction};
use unei::entity::user::events_relation;

#[test]
fn events_belong_to_their_author() {
    let d = EventRelation::User.def();
    assert_eq!(d.kind, RelationKind::BelongsTo);
    assert_eq!((d.from_table.as_str(), d.from_column.as_str()), ("event", "author_id"));
    assert_eq!((d.to_table.as_str(), d.to_column.as_str()), ("user", "id"));
    assert_eq!(d.on_update, Some(ForeignKeyAction::NoAction));
    assert_eq!(d.on_delete, Some(ForeignKeyAction::NoAction));
}

#[test]
fn every_event_relation_goes_through_its_column() {
    for (r, column, table) in [
        (EventRelation::Comment, "comment_id", "comment"),
        (EventRelation::Reaction, "reaction_id", "reaction"),
        (EventRelation::Tag, "tag_id", "tag"),
        (EventRelation::User, "author_id", "user"),
    ] {
        let d = r.def();
        assert_eq!((d.from_column.as_str(), d.to_table.as_str()), (column, table));
    }
}

#[test]
fn users_have_the_events_they_wrote() {
    let d = events_relation();
    assert_eq!(d.kind, RelationKind::HasMany);
    assert_eq!((d.from_table.as_str(), d.from_column.as_str()), ("user", "id"));
    assert_eq!((d.to_table.as_str(), d.to_column.as_str()), ("event", "author_id"));
}

#[test]
fn users_are_referred_to_by_five_tables() {
    let tables: Vec<String> = [UserRelation::Comment, UserRelation::Event, UserRelation::Member, UserRelation::Reaction, UserRelation::Session]
        .iter()
        .map(|r| r.related_table())
        .collect();
    assert_eq!(tables, vec!["comment", "event", "member", "reaction", "session"]);
}
