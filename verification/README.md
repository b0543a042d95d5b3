# unei

The request logic, data model and database schema of a small web service where people
sign in with Discord, create groups (becoming their administrators) and record events.
The library is written in Verus; its contracts are proved.

- `src/flow/`: the handlers that use the database or Discord, each a state machine that
  asks for one outside operation at a time (`Effect`) and is told what came of it
  (`Feedback`); laws about whole requests (sign-in required, the creator of a group is its
  administrator, every handler ends) stand beside them.
- `src/pages.rs`: the greeting, sign-out, and the redirect that starts sign-in.
- `src/migration/`: each migration as the schema statements it makes going up and down,
  and a model of what PostgreSQL does with those statements (keys must resolve, dropping
  a column drops its keys, a referred table or column cannot be dropped, a non-null
  column without default needs an empty table). Proved against it: where each
  create-table migration goes up on a schema without its table, going down restores it;
  adding the theme is undone by going down; `create_member` going up is always refused;
  going down after `add_group_id_to_member` always fails; going down after
  `remove_member_id_from_group` restores `group` only when no key was on `member_id`.
- `src/entity/`, `src/discord.rs`, `src/ids.rs`, `src/calendar.rs`: rows, Discord
  profiles, record identifiers and their text, event days.
- `app/`: the actix-web server that performs the effects against PostgreSQL (sea-orm),
  the OAuth provider and Discord, and runs the migrations.
