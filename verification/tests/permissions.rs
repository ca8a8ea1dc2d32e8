use asset_access::enums::{AppResponse, SuccessActions};
use asset_access::models::PermissionUpdateType;
use asset_access::permissions::{
    after_connection_failure, after_rollback, begin_sync, classify_grant, plan_field_update,
    sync_plan, sync_step, update_asset, update_finished, AfterFailure, FieldUpdate, GrantWrite,
    SyncCommand, SyncPolicy, SyncState,
};

fn update(user_id: Option<u128>, permission_id: Option<u128>, role_id: Option<u128>) -> PermissionUpdateType {
    PermissionUpdateType { related_id: 100, user_id, permission_id, role_id }
}

const ROLE: GrantWrite = GrantWrite::Role { related_id: 100, role_id: 7 };
const USER: GrantWrite = GrantWrite::User { related_id: 100, user_id: 11, permission_id: 9 };

#[test]
fn grant_shapes() {
    assert_eq!(classify_grant(&update(None, None, Some(7))), Some(ROLE));
    assert_eq!(classify_grant(&update(Some(11), Some(9), None)), Some(USER));
    assert_eq!(classify_grant(&update(Some(11), Some(9), Some(7))), Some(USER));
    assert_eq!(classify_grant(&update(None, None, None)), None);
    assert_eq!(classify_grant(&update(Some(11), None, None)), None);
    assert_eq!(classify_grant(&update(None, Some(9), None)), None);
    assert_eq!(classify_grant(&update(Some(11), None, Some(7))), None);
    assert_eq!(classify_grant(&update(None, Some(9), Some(7))), None);
}

#[test]
fn plan_keeps_order_and_drops_shapeless_updates() {
    let updates = vec![
        update(Some(11), Some(9), None),
        update(None, None, None),
        update(None, None, Some(7)),
        update(Some(11), None, None),
    ];
    assert_eq!(sync_plan(&updates), vec![USER, ROLE]);
    assert_eq!(sync_plan(&vec![]), vec![]);
}

#[test]
fn transaction_deletes_inserts_commits() {
    let (state, command) = begin_sync(ROLE);
    assert_eq!(state, SyncState::Deleting(ROLE));
    assert_eq!(command, SyncCommand::Delete { related_id: 100 });
    let (state, command) = sync_step(state, Ok(()));
    assert_eq!(state, SyncState::Inserting(ROLE));
    assert_eq!(command, SyncCommand::Insert(ROLE));
    let (state, command) = sync_step(state, Ok(()));
    assert_eq!(state, SyncState::Committing);
    assert_eq!(command, SyncCommand::Commit);
    let (state, command) = sync_step(state, Ok(()));
    assert_eq!(state, SyncState::Committed);
    assert_eq!(command, SyncCommand::Nothing);
    assert_eq!(sync_step(state, Err("late".to_string())), (SyncState::Committed, SyncCommand::Nothing));
}

#[test]
fn any_failure_rolls_back() {
    for state in [SyncState::Deleting(USER), SyncState::Inserting(USER), SyncState::Committing] {
        assert_eq!(
            sync_step(state, Err("deadlock".to_string())),
            (SyncState::RolledBack, SyncCommand::Rollback("deadlock".to_string()))
        );
    }
    assert_eq!(sync_step(SyncState::RolledBack, Ok(())), (SyncState::RolledBack, SyncCommand::Nothing));
}

#[test]
fn strict_sync_fails_the_request() {
    assert_eq!(
        after_rollback(SyncPolicy::Strict, "deadlock".to_string()),
        AfterFailure::Stop(AppResponse::Error("deadlock".to_string()))
    );
    assert_eq!(
        after_connection_failure(SyncPolicy::Strict, "pool closed".to_string()),
        AppResponse::Error("pool closed".to_string())
    );
}

#[test]
fn best_effort_sync_warns_and_succeeds() {
    assert_eq!(
        after_rollback(SyncPolicy::BestEffort, "deadlock".to_string()),
        AfterFailure::Warn("deadlock".to_string())
    );
    assert_eq!(
        after_connection_failure(SyncPolicy::BestEffort, "pool closed".to_string()),
        AppResponse::Success("Image".to_string(), SuccessActions::Update)
    );
}

#[test]
fn field_update_sets_what_is_named() {
    assert_eq!(plan_field_update(None, None), FieldUpdate::Nothing);
    assert_eq!(plan_field_update(Some("t".to_string()), None), FieldUpdate::Title("t".to_string()));
    assert_eq!(plan_field_update(None, Some(5)), FieldUpdate::Owner(5));
    assert_eq!(
        plan_field_update(Some("t".to_string()), Some(5)),
        FieldUpdate::TitleAndOwner("t".to_string(), 5)
    );
}

#[test]
fn update_plan() {
    let plan = update_asset(
        Some("t".to_string()),
        None,
        true,
        Some(vec![update(None, None, Some(7)), update(None, None, None)]),
    );
    assert_eq!(plan.fields, FieldUpdate::Title("t".to_string()));
    assert!(plan.replace_object);
    assert_eq!(plan.writes, vec![ROLE]);
    let plan = update_asset(None, None, false, None);
    assert_eq!(plan.fields, FieldUpdate::Nothing);
    assert!(!plan.replace_object);
    assert!(plan.writes.is_empty());
    assert_eq!(update_finished(), AppResponse::Success("Image".to_string(), SuccessActions::Update));
}
