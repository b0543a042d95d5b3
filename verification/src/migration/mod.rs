//! The database migrations, as the schema statements each one makes going up and down.

pub mod m20240914_135509_create_member;
pub mod m20240914_140343_create_group;
pub mod m20240914_153249_create_reaction;
pub mod m20240914_160657_create_comment;
pub mod m20240914_174810_create_event;
pub mod m20240915_113446_add_theme_to_group;
pub mod m20240915_125941_create_session;
pub mod m20240915_134829_remove_member_id_from_group;
pub mod m20240915_145308_add_group_id_to_member;
pub mod m20240915_231848_create_reaction;
pub mod m20240915_233956_create_comment_reacted_user;
pub mod model;
pub mod schema;

use vstd::prelude::*;
use crate::text::owned;

verus! {

/// The migrations the service applies, in order.
pub struct Migrator;

/// The names of the migrations the service applies, in order.
pub open spec fn migration_names() -> Seq<Seq<char>> {
    seq![
        "m20240914_134946_create_user"@,
        "m20240914_135509_create_member"@,
        "m20240914_140343_create_group"@,
        "m20240914_145822_create_tag"@,
        "m20240914_153249_create_reaction"@,
    ]
}

impl Migrator {
    /// The names of the migrations to apply, in the order they are applied.
    pub fn migrations() -> (r: Vec<String>)
        ensures
            r@.map_values(|n: String| n@) == migration_names(),
    {
        let r = vec![
            owned("m20240914_134946_create_user"),
            owned("m20240914_135509_create_member"),
            owned("m20240914_140343_create_group"),
            owned("m20240914_145822_create_tag"),
            owned("m20240914_153249_create_reaction"),
        ];
        assert(r@.map_values(|n: String| n@) =~= migration_names());
        r
    }
}

/// The service applies, in this order, `create_user`, `create_member`, `create_group`,
/// `create_tag` and `create_reaction`.
pub proof fn five_migrations_in_order()
    ensures
        migration_names() == seq![
            "m20240914_134946_create_user"@,
            "m20240914_135509_create_member"@,
            "m20240914_140343_create_group"@,
            "m20240914_145822_create_tag"@,
            "m20240914_153249_create_reaction"@,
        ],
{
}

} // verus!
