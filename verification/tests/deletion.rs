use river::deletion::{count_statement, step_statement};
use river::deletion::DeletionStep::{Archive, Delete};
use river::deletion::RowScope::{Owned, OwnedOrOnOwnedRiver};
use river::deletion::{
    delete_preview_queries, plan_user_deletion, row_scope, DeleteUserError, DeletionStep, RowScope,
    Table,
};

#[test]
fn deleting_a_missing_account_is_refused() {
    let result = plan_user_deletion(false);
    assert_eq!(result, Err(DeleteUserError::UserNotFound));
    assert_eq!(DeleteUserError::UserNotFound.message(), "User not found");
}

#[test]
fn deletion_archives_everything_then_clears_children_first() {
    let steps = plan_user_deletion(true).unwrap();
    assert_eq!(
        steps,
        vec![
            Archive(Table::AccessLogs, Owned),
            Archive(Table::UserAuths, Owned),
            Archive(Table::RiverTracks, OwnedOrOnOwnedRiver),
            Archive(Table::RiverWaypoints, OwnedOrOnOwnedRiver),
            Archive(Table::Rivers, Owned),
            Archive(Table::Users, Owned),
            Delete(Table::RiverTracks, OwnedOrOnOwnedRiver),
            Delete(Table::RiverWaypoints, OwnedOrOnOwnedRiver),
            Delete(Table::Rivers, Owned),
            Delete(Table::AccessLogs, Owned),
            Delete(Table::UserAuths, Owned),
            Delete(Table::Users, Owned),
        ]
    );
}

#[test]
fn tracks_on_the_accounts_rivers_go_with_it() {
    assert_eq!(row_scope(Table::RiverTracks), RowScope::OwnedOrOnOwnedRiver);
    assert_eq!(row_scope(Table::RiverWaypoints), RowScope::OwnedOrOnOwnedRiver);
    assert_eq!(row_scope(Table::Rivers), RowScope::Owned);
}

#[test]
fn preview_counts_what_is_archived() {
    let preview = delete_preview_queries();
    assert_eq!(
        preview,
        vec![
            (Table::Rivers, RowScope::Owned),
            (Table::RiverTracks, RowScope::OwnedOrOnOwnedRiver),
            (Table::RiverWaypoints, RowScope::OwnedOrOnOwnedRiver),
            (Table::UserAuths, RowScope::Owned),
        ]
    );
    let steps = plan_user_deletion(true).unwrap();
    for (table, scope) in preview {
        assert!(steps.contains(&DeletionStep::Archive(table, scope)));
    }
}

#[test]
fn deletion_statements_archive_and_remove_the_same_rows() {
    assert_eq!(
        step_statement(Archive(Table::AccessLogs, Owned)),
        "INSERT INTO deleted_access_logs (access_log_id, user_id, request, created_at, deleted_at) SELECT access_log_id, user_id, request, created_at, ?2 FROM access_logs WHERE user_id = ?1"
    );
    assert_eq!(
        step_statement(Delete(Table::RiverTracks, OwnedOrOnOwnedRiver)),
        "DELETE FROM river_tracks WHERE user_id = ?1 OR river_id IN (SELECT river_id FROM rivers WHERE user_id = ?1)"
    );
    assert_eq!(
        count_statement(Table::Rivers, Owned),
        "SELECT COUNT(*) AS count FROM rivers WHERE user_id = ?1"
    );
}
