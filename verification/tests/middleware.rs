use asset_access::enums::AppResponse;
use asset_access::gateway::{verify, AuthFailure};
use asset_access::middleware::{
    audit_context, begin, classify, denial_response, policy_request, step, AccessCommand,
    AccessEvent, AccessState, Action, AuditContext, Denial,
};
use asset_access::models::{Claims, PermissionCheckResponse, VerifyJWTResponse};
use asset_access::resolver::QueryOutcome;

const RESOURCE: u128 = 0x550e8400e29b41d4a716446655440000;
const DELETE_PATH: &str =
    "/assets/a1a2a3a4-b1b2-c1c2-d1d2-d3d4d5d6d7d8/images/550e8400-e29b-41d4-a716-446655440000";
const UPDATE_PATH: &str = "/assets/update/550e8400-e29b-41d4-a716-446655440000";

fn identity() -> Claims {
    Claims { user_id: 11, project_id: Some(1) }
}

fn policy(is_project_owner: bool, role_id: Option<u128>) -> PermissionCheckResponse {
    PermissionCheckResponse { is_project_owner, role_id, permission_id: None }
}

/// Runs a request through the decision; counts the calls it asks for.
fn run(
    path: &str,
    is_delete: bool,
    auth: Result<Claims, AuthFailure>,
    grant: Result<PermissionCheckResponse, String>,
    store: QueryOutcome,
) -> (AccessState, AccessCommand, [usize; 3]) {
    let mut calls = [0usize; 3];
    let (mut state, mut command) = begin(path, is_delete);
    let mut auth = Some(auth);
    let mut grant = Some(grant);
    let mut store = Some(store);
    loop {
        let event = match &command {
            AccessCommand::Verify => {
                calls[0] += 1;
                AccessEvent::Verified(auth.take().unwrap())
            }
            AccessCommand::LookupPolicy { .. } => {
                calls[1] += 1;
                AccessEvent::Policy(grant.take().unwrap())
            }
            AccessCommand::QueryStore { .. } => {
                calls[2] += 1;
                AccessEvent::Store(store.take().unwrap())
            }
            _ => return (state, command, calls),
        };
        let next = step(state, event);
        state = next.0;
        command = next.1;
    }
}

#[test]
fn classify_takes_the_first_rule_that_fits() {
    assert_eq!(classify("/assets/update/x", false), Some(Action::Update));
    assert_eq!(classify("/assets/update/x", true), Some(Action::Update));
    assert_eq!(classify("/assets/bulk/delete/images", false), Some(Action::Delete));
    assert_eq!(classify("/assets/p/images/x", true), Some(Action::Delete));
    assert_eq!(classify("/upload/p/images", false), Some(Action::Upload));
    assert_eq!(classify("/assets/download/p/images", false), Some(Action::Read));
    assert_eq!(classify("/assets/download/upload", false), Some(Action::Upload));
    assert_eq!(classify("/assets/p/images/x", false), None);
    assert_eq!(classify("", false), None);
}

#[test]
fn action_names_are_the_closed_set() {
    assert_eq!(Action::Read.as_str(), "read");
    assert_eq!(Action::Update.as_str(), "update");
    assert_eq!(Action::Delete.as_str(), "delete");
    assert_eq!(Action::Upload.as_str(), "upload");
}

#[test]
fn begin_reads_resource_and_action() {
    assert_eq!(
        begin(UPDATE_PATH, false),
        (
            AccessState::Authenticating { action: Action::Update, resource_id: RESOURCE },
            AccessCommand::Verify
        )
    );
    assert_eq!(
        begin(DELETE_PATH, true),
        (
            AccessState::Authenticating { action: Action::Delete, resource_id: RESOURCE },
            AccessCommand::Verify
        )
    );
}

#[test]
fn begin_denies_a_path_without_resource() {
    let (state, command) = begin("/assets/update/not-an-id", false);
    assert_eq!(state, AccessState::Deny);
    assert!(matches!(command, AccessCommand::Reject(Denial::InvalidResource(_))));
}

#[test]
fn begin_denies_an_unknown_action() {
    assert_eq!(
        begin(DELETE_PATH, false),
        (AccessState::Deny, AccessCommand::Reject(Denial::UnknownAction))
    );
}

#[test]
fn not_owner_without_grants_is_forbidden_to_delete() {
    let (state, command, calls) = run(
        DELETE_PATH,
        true,
        Ok(identity()),
        Ok(policy(false, None)),
        QueryOutcome::NotFound,
    );
    assert_eq!(state, AccessState::Deny);
    assert_eq!(command, AccessCommand::Reject(Denial::PermissionDenied));
    assert_eq!(calls, [1, 1, 1]);
    let (status, payload) = denial_response(Denial::PermissionDenied).into_response();
    assert_eq!(status, 403);
    assert!(!payload.ok);
    assert!(!payload.role_access);
    assert_eq!(payload.message, "You do not have permission to perform this action.");
    assert_eq!(payload.data, None);
}

#[test]
fn role_grant_allows_the_request() {
    let (state, command, calls) = run(
        UPDATE_PATH,
        false,
        Ok(identity()),
        Ok(policy(false, Some(7))),
        QueryOutcome::Found,
    );
    assert_eq!(state, AccessState::Allow);
    assert_eq!(command, AccessCommand::Proceed);
    assert_eq!(calls, [1, 1, 1]);
}

#[test]
fn store_is_asked_with_the_policy_of_the_identity() {
    let state = AccessState::PolicyLookup { action: Action::Update, resource_id: RESOURCE, identity: identity() };
    let grant = PermissionCheckResponse { is_project_owner: false, role_id: Some(7), permission_id: Some(9) };
    assert_eq!(
        step(state, AccessEvent::Policy(Ok(grant))),
        (
            AccessState::PermissionResolution {
                action: Action::Update,
                resource_id: RESOURCE,
                identity: identity(),
                grant
            },
            AccessCommand::QueryStore {
                resource_id: RESOURCE,
                user_id: 11,
                role_id: Some(7),
                permission_id: Some(9)
            }
        )
    );
}

#[test]
fn project_owner_is_allowed_without_the_store() {
    let (state, command, calls) = run(
        UPDATE_PATH,
        false,
        Ok(identity()),
        Ok(policy(true, None)),
        QueryOutcome::Failed("not asked".to_string()),
    );
    assert_eq!(state, AccessState::Allow);
    assert_eq!(command, AccessCommand::Proceed);
    assert_eq!(calls, [1, 1, 0]);
}

#[test]
fn failed_verification_denies_before_policy_lookup() {
    let answer = verify(500, None);
    assert_eq!(answer, Err(AuthFailure::Rejected));
    let (state, command, calls) =
        run(UPDATE_PATH, false, answer, Ok(policy(true, None)), QueryOutcome::Found);
    assert_eq!(state, AccessState::Deny);
    assert_eq!(command, AccessCommand::Reject(Denial::NotAuthenticated(AuthFailure::Rejected)));
    assert_eq!(calls, [1, 0, 0]);
}

#[test]
fn missing_claims_deny_before_policy_lookup() {
    let answer = verify(200, Some(VerifyJWTResponse { claims: None }));
    let (state, command, calls) =
        run(UPDATE_PATH, false, answer, Ok(policy(true, None)), QueryOutcome::Found);
    assert_eq!(state, AccessState::Deny);
    assert_eq!(command, AccessCommand::Reject(Denial::NotAuthenticated(AuthFailure::NoClaims)));
    assert_eq!(calls, [1, 0, 0]);
}

#[test]
fn failed_policy_lookup_denies_before_the_store() {
    let (state, command, calls) = run(
        UPDATE_PATH,
        false,
        Ok(identity()),
        Err("timed out".to_string()),
        QueryOutcome::Found,
    );
    assert_eq!(state, AccessState::Deny);
    assert_eq!(command, AccessCommand::Reject(Denial::Infrastructure("timed out".to_string())));
    assert_eq!(calls, [1, 1, 0]);
}

#[test]
fn store_failure_denies() {
    let (state, command, _) = run(
        UPDATE_PATH,
        false,
        Ok(identity()),
        Ok(policy(false, Some(7))),
        QueryOutcome::Failed("connection reset".to_string()),
    );
    assert_eq!(state, AccessState::Deny);
    assert_eq!(command, AccessCommand::Reject(Denial::Infrastructure("connection reset".to_string())));
}

#[test]
fn answer_out_of_order_denies() {
    let state = AccessState::Authenticating { action: Action::Read, resource_id: RESOURCE };
    assert_eq!(
        step(state, AccessEvent::Store(QueryOutcome::Found)),
        (AccessState::Deny, AccessCommand::Reject(Denial::OutOfOrder))
    );
    let state = AccessState::PolicyLookup { action: Action::Read, resource_id: RESOURCE, identity: identity() };
    assert_eq!(
        step(state, AccessEvent::Verified(Ok(identity()))),
        (AccessState::Deny, AccessCommand::Reject(Denial::OutOfOrder))
    );
}

#[test]
fn decided_requests_stay_decided() {
    assert_eq!(
        step(AccessState::Allow, AccessEvent::Store(QueryOutcome::NotFound)),
        (AccessState::Allow, AccessCommand::Nothing)
    );
    assert_eq!(
        step(AccessState::Deny, AccessEvent::Store(QueryOutcome::Found)),
        (AccessState::Deny, AccessCommand::Nothing)
    );
}

#[test]
fn denials_show_one_of_two_shapes() {
    assert_eq!(denial_response(Denial::PermissionDenied), AppResponse::Auth);
    assert_eq!(denial_response(Denial::NotAuthenticated(AuthFailure::Rejected)), AppResponse::Auth);
    assert_eq!(
        denial_response(Denial::Infrastructure("db down".to_string())),
        AppResponse::Error("db down".to_string())
    );
    assert_eq!(
        denial_response(Denial::InvalidResource("bad id".to_string())),
        AppResponse::Error("bad id".to_string())
    );
    for denial in [Denial::UnknownAction, Denial::OutOfOrder, Denial::Infrastructure("x".to_string())] {
        let (status, payload) = denial_response(denial).into_response();
        assert_eq!(status, 500);
        assert_eq!(payload.message, "There was an error with your request.");
    }
}

#[test]
fn policy_request_names_action_and_identity() {
    let request = policy_request("http://auth", Action::Delete, &identity());
    assert_eq!(request.url, "http://auth/auth/permission/delete_images");
    assert_eq!(request.user_id, "00000000-0000-0000-0000-00000000000b");
    assert_eq!(request.project_id, Some("00000000-0000-0000-0000-000000000001".to_string()));
    let request = policy_request("http://auth", Action::Read, &Claims { user_id: 11, project_id: None });
    assert_eq!(request.url, "http://auth/auth/permission/read_images");
    assert_eq!(request.project_id, None);
}

#[test]
fn audit_context_names_what_is_known() {
    let grant = policy(false, Some(7));
    assert_eq!(
        audit_context(&AccessState::Authenticating { action: Action::Delete, resource_id: RESOURCE }),
        AuditContext { action: Some(Action::Delete), resource_id: Some(RESOURCE), user_id: None }
    );
    assert_eq!(
        audit_context(&AccessState::PolicyLookup {
            action: Action::Update,
            resource_id: RESOURCE,
            identity: identity()
        }),
        AuditContext { action: Some(Action::Update), resource_id: Some(RESOURCE), user_id: Some(11) }
    );
    assert_eq!(
        audit_context(&AccessState::PermissionResolution {
            action: Action::Read,
            resource_id: RESOURCE,
            identity: identity(),
            grant
        }),
        AuditContext { action: Some(Action::Read), resource_id: Some(RESOURCE), user_id: Some(11) }
    );
    let nothing = AuditContext { action: None, resource_id: None, user_id: None };
    assert_eq!(audit_context(&AccessState::Allow), nothing);
    assert_eq!(audit_context(&AccessState::Deny), nothing);
}
