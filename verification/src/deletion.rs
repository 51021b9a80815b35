//! Deleting an account: which rows are archived and removed, in what order,
//! and what the preview shown before the deletion counts.
//!
//! Every row that belongs to the account is first copied into the archive
//! table of its table and then removed, inside one transaction that the
//! caller runs step by step.

use vstd::prelude::*;

verus! {

/// A table that holds data of an account.
#[derive(Clone, Copy, Debug, PartialEq, Eq, Structural)]
pub enum Table {
    AccessLogs,
    UserAuths,
    RiverTracks,
    RiverWaypoints,
    Rivers,
    Users,
}

/// Which rows of a table belong to the account being deleted.
#[derive(Clone, Copy, Debug, PartialEq, Eq, Structural)]
pub enum RowScope {
    /// The rows whose `user_id` is the account's.
    Owned,
    /// The rows whose `user_id` is the account's, and the rows that lie on a
    /// river the account owns, whoever added them.
    OwnedOrOnOwnedRiver,
}

impl RowScope {
    /// Whether a row written by `row_user_id`, on a river that the account
    /// owns or not, belongs to `account` under this scope.
    pub open spec fn selects(self, account: i64, row_user_id: i64, on_owned_river: bool) -> bool {
        match self {
            RowScope::Owned => row_user_id == account,
            RowScope::OwnedOrOnOwnedRiver => row_user_id == account || on_owned_river,
        }
    }
}

/// One statement of an account deletion.
#[derive(Clone, Copy, Debug, PartialEq, Eq, Structural)]
pub enum DeletionStep {
    /// Copy the selected rows into the table's archive, stamped with the time.
    Archive(Table, RowScope),
    /// Remove the selected rows.
    Delete(Table, RowScope),
}

/// The deletion was refused.
#[derive(Clone, Copy, Debug, PartialEq, Eq, Structural)]
pub enum DeleteUserError {
    /// No account has the given id.
    UserNotFound,
}

impl DeleteUserError {
    /// The message the error is reported with.
    pub fn message(&self) -> (r: String)
        ensures
            r@ == "User not found"@,
    {
        String::from_str("User not found")
    }
}

/// The rows of `table` that belong to an account.
pub open spec fn table_scope(table: Table) -> RowScope {
    match table {
        Table::RiverTracks | Table::RiverWaypoints => RowScope::OwnedOrOnOwnedRiver,
        _ => RowScope::Owned,
    }
}

/// The rows of `table` that belong to an account.
pub fn row_scope(table: Table) -> (r: RowScope)
    ensures
        r == table_scope(table),
{
    match table {
        Table::RiverTracks | Table::RiverWaypoints => RowScope::OwnedOrOnOwnedRiver,
        _ => RowScope::Owned,
    }
}

/// The order in which the tables are archived.
pub open spec fn archive_order() -> Seq<Table> {
    seq![
        Table::AccessLogs,
        Table::UserAuths,
        Table::RiverTracks,
        Table::RiverWaypoints,
        Table::Rivers,
        Table::Users,
    ]
}

/// The order in which the tables are cleared.
pub open spec fn delete_order() -> Seq<Table> {
    seq![
        Table::RiverTracks,
        Table::RiverWaypoints,
        Table::Rivers,
        Table::AccessLogs,
        Table::UserAuths,
        Table::Users,
    ]
}

/// The statements of an account deletion: every table archived, then every
/// table cleared.
pub open spec fn deletion_steps() -> Seq<DeletionStep> {
    archive_order().map_values(|t: Table| DeletionStep::Archive(t, table_scope(t)))
        + delete_order().map_values(|t: Table| DeletionStep::Delete(t, table_scope(t)))
}

/// The statements that delete an account, or the refusal when no account
/// has the id.
pub fn plan_user_deletion(account_exists: bool) -> (r: Result<Vec<DeletionStep>, DeleteUserError>)
    ensures
        !account_exists ==> r == Err::<Vec<DeletionStep>, DeleteUserError>(
            DeleteUserError::UserNotFound,
        ),
        account_exists ==> (r matches Ok(steps) && steps@ == deletion_steps()),
{
    if !account_exists {
        return Err(DeleteUserError::UserNotFound);
    }
    let mut steps: Vec<DeletionStep> = Vec::new();
    steps.push(DeletionStep::Archive(Table::AccessLogs, row_scope(Table::AccessLogs)));
    steps.push(DeletionStep::Archive(Table::UserAuths, row_scope(Table::UserAuths)));
    steps.push(DeletionStep::Archive(Table::RiverTracks, row_scope(Table::RiverTracks)));
    steps.push(DeletionStep::Archive(Table::RiverWaypoints, row_scope(Table::RiverWaypoints)));
    steps.push(DeletionStep::Archive(Table::Rivers, row_scope(Table::Rivers)));
    steps.push(DeletionStep::Archive(Table::Users, row_scope(Table::Users)));
    steps.push(DeletionStep::Delete(Table::RiverTracks, row_scope(Table::RiverTracks)));
    steps.push(DeletionStep::Delete(Table::RiverWaypoints, row_scope(Table::RiverWaypoints)));
    steps.push(DeletionStep::Delete(Table::Rivers, row_scope(Table::Rivers)));
    steps.push(DeletionStep::Delete(Table::AccessLogs, row_scope(Table::AccessLogs)));
    steps.push(DeletionStep::Delete(Table::UserAuths, row_scope(Table::UserAuths)));
    steps.push(DeletionStep::Delete(Table::Users, row_scope(Table::Users)));
    assert(steps@ =~= deletion_steps());
    Ok(steps)
}

/// The name of the table in the store; its archive is the same name with
/// `deleted_` in front.
pub open spec fn table_name_text(table: Table) -> Seq<char> {
    match table {
        Table::AccessLogs => "access_logs"@,
        Table::UserAuths => "user_auths"@,
        Table::RiverTracks => "river_tracks"@,
        Table::RiverWaypoints => "river_waypoints"@,
        Table::Rivers => "rivers"@,
        Table::Users => "users"@,
    }
}

/// The columns of a table that its archive copies.
pub open spec fn table_columns_text(table: Table) -> Seq<char> {
    match table {
        Table::AccessLogs => "access_log_id, user_id, request, created_at"@,
        Table::UserAuths => "user_auth_id, user_id, identity_type, identifier, created_at"@,
        Table::RiverTracks =>
            "river_track_id, river_id, user_id, track_name, description, track, created_at, updated_at"@,
        Table::RiverWaypoints =>
            "river_waypoint_id, river_id, user_id, waypoint_name, description, waypoint, created_at, updated_at"@,
        Table::Rivers => "river_id, user_id, river_name, waypoint, description, created_at"@,
        Table::Users => "user_id, nickname, role, created_at"@,
    }
}

/// The SQL condition that picks the rows a scope selects (`RowScope::selects`),
/// with the account id as the parameter `?1`: a row's `user_id` is the
/// account's, or, for the wider scope, its `river_id` is one of a river the
/// account owns.
pub open spec fn scope_condition_text(scope: RowScope) -> Seq<char> {
    match scope {
        RowScope::Owned => "user_id = ?1"@,
        RowScope::OwnedOrOnOwnedRiver =>
            "user_id = ?1 OR river_id IN (SELECT river_id FROM rivers WHERE user_id = ?1)"@,
    }
}

/// The `WHERE` clause that picks the rows of a scope.
pub open spec fn where_clause_text(scope: RowScope) -> Seq<char> {
    " WHERE "@ + scope_condition_text(scope)
}

/// The SQL statement of a deletion step, with the account id as `?1` and
/// the time of the deletion as `?2`. Archiving and removing a table's rows
/// end in the same `WHERE` clause of the step's scope.
pub open spec fn step_statement_text(step: DeletionStep) -> Seq<char> {
    match step {
        DeletionStep::Archive(t, scope) => "INSERT INTO deleted_"@ + table_name_text(t) + " ("@
            + table_columns_text(t) + ", deleted_at) SELECT "@ + table_columns_text(t) + ", ?2 FROM "@
            + table_name_text(t) + where_clause_text(scope),
        DeletionStep::Delete(t, scope) => "DELETE FROM "@ + table_name_text(t) + where_clause_text(
            scope,
        ),
    }
}

/// The SQL statement that counts the rows of a table a scope picks, with
/// the account id as `?1`.
pub open spec fn count_statement_text(table: Table, scope: RowScope) -> Seq<char> {
    "SELECT COUNT(*) AS count FROM "@ + table_name_text(table) + where_clause_text(scope)
}

fn table_name(table: Table) -> (r: &'static str)
    ensures
        r@ == table_name_text(table),
{
    match table {
        Table::AccessLogs => "access_logs",
        Table::UserAuths => "user_auths",
        Table::RiverTracks => "river_tracks",
        Table::RiverWaypoints => "river_waypoints",
        Table::Rivers => "rivers",
        Table::Users => "users",
    }
}

fn table_columns(table: Table) -> (r: &'static str)
    ensures
        r@ == table_columns_text(table),
{
    match table {
        Table::AccessLogs => "access_log_id, user_id, request, created_at",
        Table::UserAuths => "user_auth_id, user_id, identity_type, identifier, created_at",
        Table::RiverTracks => {
            "river_track_id, river_id, user_id, track_name, description, track, created_at, updated_at"
        },
        Table::RiverWaypoints => {
            "river_waypoint_id, river_id, user_id, waypoint_name, description, waypoint, created_at, updated_at"
        },
        Table::Rivers => "river_id, user_id, river_name, waypoint, description, created_at",
        Table::Users => "user_id, nickname, role, created_at",
    }
}

/// The SQL condition of a scope, with the account id as `?1`.
pub fn scope_condition(scope: RowScope) -> (r: &'static str)
    ensures
        r@ == scope_condition_text(scope),
{
    match scope {
        RowScope::Owned => "user_id = ?1",
        RowScope::OwnedOrOnOwnedRiver => {
            "user_id = ?1 OR river_id IN (SELECT river_id FROM rivers WHERE user_id = ?1)"
        },
    }
}

fn push_where_clause(s: &mut String, scope: RowScope)
    ensures
        final(s)@ == old(s)@ + where_clause_text(scope),
{
    s.append(" WHERE ");
    s.append(scope_condition(scope));
    assert(final(s)@ =~= old(s)@ + where_clause_text(scope));
}

/// The SQL statement of a deletion step, with the account id as `?1` and
/// the time of the deletion as `?2`.
pub fn step_statement(step: DeletionStep) -> (r: String)
    ensures
        r@ == step_statement_text(step),
{
    match step {
        DeletionStep::Archive(t, scope) => {
            let mut s = String::from_str("INSERT INTO deleted_");
            s.append(table_name(t));
            s.append(" (");
            s.append(table_columns(t));
            s.append(", deleted_at) SELECT ");
            s.append(table_columns(t));
            s.append(", ?2 FROM ");
            s.append(table_name(t));
            push_where_clause(&mut s, scope);
            s
        },
        DeletionStep::Delete(t, scope) => {
            let mut s = String::from_str("DELETE FROM ");
            s.append(table_name(t));
            push_where_clause(&mut s, scope);
            s
        },
    }
}

/// The SQL statement that counts the rows of `table` that `scope` picks,
/// with the account id as `?1`.
pub fn count_statement(table: Table, scope: RowScope) -> (r: String)
    ensures
        r@ == count_statement_text(table, scope),
{
    let mut s = String::from_str("SELECT COUNT(*) AS count FROM ");
    s.append(table_name(table));
    push_where_clause(&mut s, scope);
    s
}

/// The tables the deletion preview counts rows of, in the order of the
/// fields of `UserDeletePreview`: rivers, tracks, waypoints, linked logins.
pub open spec fn preview_tables() -> Seq<Table> {
    seq![Table::Rivers, Table::RiverTracks, Table::RiverWaypoints, Table::UserAuths]
}

/// The counts the deletion preview is made of: each table with the scope of
/// the account's rows in it.
pub open spec fn preview_counts() -> Seq<(Table, RowScope)> {
    preview_tables().map_values(|t: Table| (t, table_scope(t)))
}

/// The counts to run for the deletion preview of an account, in the order
/// of the fields of `UserDeletePreview`.
pub fn delete_preview_queries() -> (r: Vec<(Table, RowScope)>)
    ensures
        r@ == preview_counts(),
{
    let mut r: Vec<(Table, RowScope)> = Vec::new();
    r.push((Table::Rivers, row_scope(Table::Rivers)));
    r.push((Table::RiverTracks, row_scope(Table::RiverTracks)));
    r.push((Table::RiverWaypoints, row_scope(Table::RiverWaypoints)));
    r.push((Table::UserAuths, row_scope(Table::UserAuths)));
    assert(r@ =~= preview_counts());
    r
}

/// The table and scope a step works on.
pub open spec fn step_target(step: DeletionStep) -> (Table, RowScope) {
    match step {
        DeletionStep::Archive(t, s) => (t, s),
        DeletionStep::Delete(t, s) => (t, s),
    }
}

/// An account deletion archives every table and clears every table, each
/// exactly once; it archives everything before it removes anything; each
/// table is archived and cleared with the same scope, so what is removed is
/// exactly what was archived; the rivers are cleared only after every
/// statement that selects rows by the account's rivers, and the account
/// itself is removed last.
pub proof fn lemma_deletion_plan_is_complete_and_ordered()
    ensures
        forall|t: Table| #[trigger] archive_order().contains(t) && delete_order().contains(t),
        archive_order().no_duplicates(),
        delete_order().no_duplicates(),
        deletion_steps().len() == archive_order().len() + delete_order().len(),
        forall|i: int, j: int|
            0 <= i < j < deletion_steps().len() && #[trigger] deletion_steps()[i] is Delete
                ==> #[trigger] deletion_steps()[j] is Delete,
        forall|i: int|
            0 <= i < deletion_steps().len() ==> step_target(#[trigger] deletion_steps()[i]).1
                == table_scope(step_target(deletion_steps()[i]).0),
        forall|i: int, j: int|
            0 <= i < deletion_steps().len() && 0 <= j < deletion_steps().len()
                && #[trigger] deletion_steps()[i] == DeletionStep::Delete(Table::Rivers, RowScope::Owned)
                && step_target(#[trigger] deletion_steps()[j]).1 == RowScope::OwnedOrOnOwnedRiver
                ==> j < i,
        deletion_steps().last() == DeletionStep::Delete(Table::Users, RowScope::Owned),
{
    let steps = deletion_steps();
    assert(steps.len() == 12);
    assert(steps[0] == DeletionStep::Archive(Table::AccessLogs, RowScope::Owned));
    assert(steps[1] == DeletionStep::Archive(Table::UserAuths, RowScope::Owned));
    assert(steps[2] == DeletionStep::Archive(Table::RiverTracks, RowScope::OwnedOrOnOwnedRiver));
    assert(steps[3] == DeletionStep::Archive(Table::RiverWaypoints, RowScope::OwnedOrOnOwnedRiver));
    assert(steps[4] == DeletionStep::Archive(Table::Rivers, RowScope::Owned));
    assert(steps[5] == DeletionStep::Archive(Table::Users, RowScope::Owned));
    assert(steps[6] == DeletionStep::Delete(Table::RiverTracks, RowScope::OwnedOrOnOwnedRiver));
    assert(steps[7] == DeletionStep::Delete(Table::RiverWaypoints, RowScope::OwnedOrOnOwnedRiver));
    assert(steps[8] == DeletionStep::Delete(Table::Rivers, RowScope::Owned));
    assert(steps[9] == DeletionStep::Delete(Table::AccessLogs, RowScope::Owned));
    assert(steps[10] == DeletionStep::Delete(Table::UserAuths, RowScope::Owned));
    assert(steps[11] == DeletionStep::Delete(Table::Users, RowScope::Owned));
    assert forall|t: Table| #[trigger] archive_order().contains(t) && delete_order().contains(t) by {
        match t {
            Table::AccessLogs => {
                assert(archive_order()[0] == t);
                assert(delete_order()[3] == t);
            },
            Table::UserAuths => {
                assert(archive_order()[1] == t);
                assert(delete_order()[4] == t);
            },
            Table::RiverTracks => {
                assert(archive_order()[2] == t);
                assert(delete_order()[0] == t);
            },
            Table::RiverWaypoints => {
                assert(archive_order()[3] == t);
                assert(delete_order()[1] == t);
            },
            Table::Rivers => {
                assert(archive_order()[4] == t);
                assert(delete_order()[2] == t);
            },
            Table::Users => {
                assert(archive_order()[5] == t);
                assert(delete_order()[5] == t);
            },
        }
    }
}

/// Each number of the deletion preview counts exactly the rows that the
/// deletion then archives from that table.
pub proof fn lemma_preview_counts_what_deletion_archives()
    ensures
        preview_counts().len() == 4,
        forall|i: int|
            0 <= i < preview_counts().len() ==> deletion_steps().contains(
                DeletionStep::Archive(#[trigger] preview_counts()[i].0, preview_counts()[i].1),
            ),
{
    let steps = deletion_steps();
    let p = preview_counts();
    assert(steps[4] == DeletionStep::Archive(Table::Rivers, RowScope::Owned));
    assert(steps[2] == DeletionStep::Archive(Table::RiverTracks, RowScope::OwnedOrOnOwnedRiver));
    assert(steps[3] == DeletionStep::Archive(Table::RiverWaypoints, RowScope::OwnedOrOnOwnedRiver));
    assert(steps[1] == DeletionStep::Archive(Table::UserAuths, RowScope::Owned));
    assert(p[0] == (Table::Rivers, RowScope::Owned));
    assert(p[1] == (Table::RiverTracks, RowScope::OwnedOrOnOwnedRiver));
    assert(p[2] == (Table::RiverWaypoints, RowScope::OwnedOrOnOwnedRiver));
    assert(p[3] == (Table::UserAuths, RowScope::Owned));
}

/// Whether `text` ends with `suffix`.
pub open spec fn ends_with(text: Seq<char>, suffix: Seq<char>) -> bool {
    suffix.len() <= text.len() && text.subrange(text.len() - suffix.len(), text.len() as int)
        == suffix
}

proof fn lemma_ends_with_concat(prefix: Seq<char>, suffix: Seq<char>)
    ensures
        ends_with(prefix + suffix, suffix),
{
    assert((prefix + suffix).subrange(prefix.len() as int, (prefix + suffix).len() as int)
        =~= suffix);
}

/// Every statement on the rows of a table picks them with the `WHERE` clause
/// of its own scope: archiving, removing and counting the rows of `table`
/// under `scope` all end in that clause, so what the deletion removes is
/// what it archived and what the preview counted. The two scopes have
/// different clauses, and the wider one picks, besides the rows the owned
/// condition picks, the rows whose river is one the owned condition picks
/// among the rivers.
pub proof fn lemma_statements_select_by_scope(table: Table, scope: RowScope)
    ensures
        ends_with(step_statement_text(DeletionStep::Archive(table, scope)), where_clause_text(scope)),
        ends_with(step_statement_text(DeletionStep::Delete(table, scope)), where_clause_text(scope)),
        ends_with(count_statement_text(table, scope), where_clause_text(scope)),
        where_clause_text(RowScope::Owned) != where_clause_text(RowScope::OwnedOrOnOwnedRiver),
        scope_condition_text(RowScope::OwnedOrOnOwnedRiver) == scope_condition_text(RowScope::Owned)
            + " OR river_id IN (SELECT river_id FROM rivers WHERE "@ + scope_condition_text(
            RowScope::Owned,
        ) + ")"@,
{
    let archive = step_statement_text(DeletionStep::Archive(table, scope));
    let w = where_clause_text(scope);
    lemma_ends_with_concat(archive.subrange(0, archive.len() - w.len()), w);
    assert(archive.subrange(0, archive.len() - w.len()) + w =~= archive);
    let delete = step_statement_text(DeletionStep::Delete(table, scope));
    lemma_ends_with_concat("DELETE FROM "@ + table_name_text(table), w);
    lemma_ends_with_concat("SELECT COUNT(*) AS count FROM "@ + table_name_text(table), w);
    reveal_strlit(" WHERE ");
    reveal_strlit("user_id = ?1");
    reveal_strlit("user_id = ?1 OR river_id IN (SELECT river_id FROM rivers WHERE user_id = ?1)");
    reveal_strlit(" OR river_id IN (SELECT river_id FROM rivers WHERE ");
    reveal_strlit(")");
    assert(where_clause_text(RowScope::Owned).len() != where_clause_text(
        RowScope::OwnedOrOnOwnedRiver,
    ).len());
    assert(scope_condition_text(RowScope::OwnedOrOnOwnedRiver) =~= scope_condition_text(
        RowScope::Owned,
    ) + " OR river_id IN (SELECT river_id FROM rivers WHERE "@ + scope_condition_text(
        RowScope::Owned,
    ) + ")"@);
}

/// Tracks and waypoints lie on rivers, so every statement of a deletion, and
/// every count of its preview, on those tables also picks the rows on the
/// account's rivers, whoever added them; every statement on the other
/// tables picks only the account's own rows.
pub proof fn lemma_rows_on_owned_rivers_go_with_them()
    ensures
        forall|i: int|
            0 <= i < deletion_steps().len() ==> ({
                let (t, s) = step_target(#[trigger] deletion_steps()[i]);
                s == (if t == Table::RiverTracks || t == Table::RiverWaypoints {
                    RowScope::OwnedOrOnOwnedRiver
                } else {
                    RowScope::Owned
                })
            }),
        forall|i: int|
            0 <= i < preview_counts().len() ==> ({
                let (t, s) = #[trigger] preview_counts()[i];
                s == (if t == Table::RiverTracks || t == Table::RiverWaypoints {
                    RowScope::OwnedOrOnOwnedRiver
                } else {
                    RowScope::Owned
                })
            }),
{
    lemma_deletion_plan_is_complete_and_ordered();
}

} // verus!
