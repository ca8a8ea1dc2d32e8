//! The access decision in front of the protected operations.
//!
//! A request is classified, its session verified, the policy for its action
//! looked up, and the resolver asked. The decision is a state machine: it names
//! the call to make next, and takes what the call returned as an event. It
//! makes no call itself and holds nothing between requests.
use vstd::prelude::*;
use vstd::string::*;
use crate::enums::AppResponse;
use crate::gateway::AuthFailure;
use crate::ids::{hyphenated, id_text, parse_id, parsed_uuid};
use crate::models::{Claims, PermissionCheckResponse};
use crate::resolver::{conclude, plan, resolves, Lookup, QueryOutcome, Resolution, Store};
use crate::text::{contains, contains_text, last_segment, last_segment_of};

verus! {

/// What a request wants to do.
#[derive(Debug, Clone, Copy, PartialEq, Eq, Structural)]
pub enum Action {
    Read,
    Update,
    Delete,
    Upload,
}

impl Action {
    /// The name of the action, as the policy service knows it.
    pub open spec fn text(self) -> Seq<char> {
        match self {
            Action::Read => "read"@,
            Action::Update => "update"@,
            Action::Delete => "delete"@,
            Action::Upload => "upload"@,
        }
    }

    pub fn as_str(&self) -> (name: &'static str)
        ensures
            name@ == self.text(),
    {
        match self {
            Action::Read => "read",
            Action::Update => "update",
            Action::Delete => "delete",
            Action::Upload => "upload",
        }
    }
}

/// The action of a request, by its path and by whether its method is
/// DELETE. The first rule that fits decides.
pub open spec fn classified(path: Seq<char>, is_delete: bool) -> Option<Action> {
    if contains_text(path, "/update/"@) {
        Some(Action::Update)
    } else if contains_text(path, "/delete/"@) || is_delete {
        Some(Action::Delete)
    } else if contains_text(path, "upload"@) {
        Some(Action::Upload)
    } else if contains_text(path, "download"@) {
        Some(Action::Read)
    } else {
        None
    }
}

/// Classifies a request. `None` where no rule fits.
pub fn classify(path: &str, is_delete: bool) -> (action: Option<Action>)
    ensures
        action == classified(path@, is_delete),
{
    if contains(path, "/update/") {
        Some(Action::Update)
    } else if is_delete || contains(path, "/delete/") {
        Some(Action::Delete)
    } else if contains(path, "upload") {
        Some(Action::Upload)
    } else if contains(path, "download") {
        Some(Action::Read)
    } else {
        None
    }
}

/// Where the policy for an action is asked:
/// `{auth_service_url}/auth/permission/{action}_images`.
pub open spec fn policy_url_text(auth_service_url: Seq<char>, action: Action) -> Seq<char> {
    auth_service_url + "/auth/permission/"@ + action.text() + "_images"@
}

/// The call that looks a policy up.
#[derive(Debug, Clone, PartialEq, Eq)]
pub struct PolicyRequest {
    pub url: String,
    /// The `user-id` header.
    pub user_id: String,
    /// The `project-id` header, where the claims name a project.
    pub project_id: Option<String>,
}

/// Prepares the policy lookup for an action and an identity.
pub fn policy_request(auth_service_url: &str, action: Action, identity: &Claims) -> (request:
    PolicyRequest)
    ensures
        request.url@ == policy_url_text(auth_service_url@, action),
        request.user_id@ == hyphenated(identity.user_id),
        identity.project_id is None ==> request.project_id is None,
        identity.project_id matches Some(project) ==> (request.project_id matches Some(header)
            && header@ == hyphenated(project)),
{
    let mut url = String::from_str(auth_service_url);
    url.append("/auth/permission/");
    url.append(action.as_str());
    url.append("_images");
    let project_id = match identity.project_id {
        Some(project) => Some(id_text(project)),
        None => None,
    };
    PolicyRequest { url, user_id: id_text(identity.user_id), project_id }
}

/// Why access was denied.
#[derive(Debug, Clone, PartialEq, Eq)]
pub enum Denial {
    /// The path does not end in a resource identifier.
    InvalidResource(String),
    /// No action fits the request.
    UnknownAction,
    /// The session was not verified.
    NotAuthenticated(AuthFailure),
    /// The policy service or the store failed.
    Infrastructure(String),
    /// The identity is known and may not do this.
    PermissionDenied,
    /// An answer arrived that was not waited for.
    OutOfOrder,
}

/// Where a request stands.
#[derive(Debug, Clone, Copy, PartialEq, Eq, Structural)]
pub enum AccessState {
    Authenticating { action: Action, resource_id: u128 },
    PolicyLookup { action: Action, resource_id: u128, identity: Claims },
    PermissionResolution {
        action: Action,
        resource_id: u128,
        identity: Claims,
        grant: PermissionCheckResponse,
    },
    Allow,
    Deny,
}

/// What a call returned.
#[derive(Debug, PartialEq, Eq)]
pub enum AccessEvent {
    Verified(Result<Claims, AuthFailure>),
    Policy(Result<PermissionCheckResponse, String>),
    Store(QueryOutcome),
}

/// What to do next.
#[derive(Debug, Clone, PartialEq, Eq)]
pub enum AccessCommand {
    /// Verify the session.
    Verify,
    /// Ask the policy service what satisfies the action.
    LookupPolicy { action: Action, identity: Claims },
    /// Ask the store whether a row satisfies ownership or the policy.
    QueryStore {
        resource_id: u128,
        user_id: u128,
        role_id: Option<u128>,
        permission_id: Option<u128>,
    },
    /// Hand the request to the protected operation.
    Proceed,
    /// Answer with a denial.
    Reject(Denial),
    /// The request was decided before; nothing is left to do.
    Nothing,
}

/// Receives a request: reads the resource from the end of its path, then
/// classifies it. A path without a resource, and a request that no action
/// fits, are denied before any call is made.
pub fn begin(path: &str, is_delete: bool) -> (r: (AccessState, AccessCommand))
    ensures
        match parsed_uuid(last_segment(path@)) {
            None => r.0 == AccessState::Deny && r.1 matches AccessCommand::Reject(
                Denial::InvalidResource(_),
            ),
            Some(resource_id) => match classified(path@, is_delete) {
                None => r == (AccessState::Deny, AccessCommand::Reject(Denial::UnknownAction)),
                Some(action) => r == (
                    AccessState::Authenticating { action, resource_id },
                    AccessCommand::Verify,
                ),
            },
        },
{
    let segment = last_segment_of(path);
    match parse_id(segment.as_str()) {
        Err(invalid) => (
            AccessState::Deny,
            AccessCommand::Reject(Denial::InvalidResource(invalid.message)),
        ),
        Ok(resource_id) => match classify(path, is_delete) {
            None => (AccessState::Deny, AccessCommand::Reject(Denial::UnknownAction)),
            Some(action) => (
                AccessState::Authenticating { action, resource_id },
                AccessCommand::Verify,
            ),
        },
    }
}

/// The state and the command that follow an event.
pub open spec fn next(state: AccessState, event: AccessEvent) -> (AccessState, AccessCommand) {
    match (state, event) {
        (AccessState::Allow, _) => (AccessState::Allow, AccessCommand::Nothing),
        (AccessState::Deny, _) => (AccessState::Deny, AccessCommand::Nothing),
        (AccessState::Authenticating { action, resource_id }, AccessEvent::Verified(Ok(identity))) => (
            AccessState::PolicyLookup { action, resource_id, identity },
            AccessCommand::LookupPolicy { action, identity },
        ),
        (AccessState::Authenticating { .. }, AccessEvent::Verified(Err(failure))) => (
            AccessState::Deny,
            AccessCommand::Reject(Denial::NotAuthenticated(failure)),
        ),
        (AccessState::PolicyLookup { action, resource_id, identity }, AccessEvent::Policy(Ok(grant))) => {
            if grant.is_project_owner {
                (AccessState::Allow, AccessCommand::Proceed)
            } else {
                (
                    AccessState::PermissionResolution { action, resource_id, identity, grant },
                    AccessCommand::QueryStore {
                        resource_id,
                        user_id: identity.user_id,
                        role_id: grant.role_id,
                        permission_id: grant.permission_id,
                    },
                )
            }
        },
        (AccessState::PolicyLookup { .. }, AccessEvent::Policy(Err(message))) => (
            AccessState::Deny,
            AccessCommand::Reject(Denial::Infrastructure(message)),
        ),
        (AccessState::PermissionResolution { .. }, AccessEvent::Store(QueryOutcome::Found)) => (
            AccessState::Allow,
            AccessCommand::Proceed,
        ),
        (AccessState::PermissionResolution { .. }, AccessEvent::Store(QueryOutcome::NotFound)) => (
            AccessState::Deny,
            AccessCommand::Reject(Denial::PermissionDenied),
        ),
        (
            AccessState::PermissionResolution { .. },
            AccessEvent::Store(QueryOutcome::Failed(message)),
        ) => (AccessState::Deny, AccessCommand::Reject(Denial::Infrastructure(message))),
        _ => (AccessState::Deny, AccessCommand::Reject(Denial::OutOfOrder)),
    }
}

/// Takes what a call returned and names what follows.
pub fn step(state: AccessState, event: AccessEvent) -> (r: (AccessState, AccessCommand))
    ensures
        r == next(state, event),
{
    match state {
        AccessState::Allow => (AccessState::Allow, AccessCommand::Nothing),
        AccessState::Deny => (AccessState::Deny, AccessCommand::Nothing),
        AccessState::Authenticating { action, resource_id } => match event {
            AccessEvent::Verified(Ok(identity)) => (
                AccessState::PolicyLookup { action, resource_id, identity },
                AccessCommand::LookupPolicy { action, identity },
            ),
            AccessEvent::Verified(Err(failure)) => (
                AccessState::Deny,
                AccessCommand::Reject(Denial::NotAuthenticated(failure)),
            ),
            _ => (AccessState::Deny, AccessCommand::Reject(Denial::OutOfOrder)),
        },
        AccessState::PolicyLookup { action, resource_id, identity } => match event {
            AccessEvent::Policy(Ok(grant)) => match plan(&identity, resource_id, &grant) {
                Lookup::NotNeeded => (AccessState::Allow, AccessCommand::Proceed),
                Lookup::Query { resource_id: resource, user_id, role_id, permission_id } => (
                    AccessState::PermissionResolution { action, resource_id, identity, grant },
                    AccessCommand::QueryStore {
                        resource_id: resource,
                        user_id,
                        role_id,
                        permission_id,
                    },
                ),
            },
            AccessEvent::Policy(Err(message)) => (
                AccessState::Deny,
                AccessCommand::Reject(Denial::Infrastructure(message)),
            ),
            _ => (AccessState::Deny, AccessCommand::Reject(Denial::OutOfOrder)),
        },
        AccessState::PermissionResolution { .. } => match event {
            AccessEvent::Store(outcome) => match conclude(outcome) {
                Resolution::Granted => (AccessState::Allow, AccessCommand::Proceed),
                Resolution::Denied => (
                    AccessState::Deny,
                    AccessCommand::Reject(Denial::PermissionDenied),
                ),
                Resolution::StoreFailure(message) => (
                    AccessState::Deny,
                    AccessCommand::Reject(Denial::Infrastructure(message)),
                ),
            },
            _ => (AccessState::Deny, AccessCommand::Reject(Denial::OutOfOrder)),
        },
    }
}

/// What is known of a request where it stands, for the audit log.
#[derive(Debug, Clone, Copy, PartialEq, Eq, Structural)]
pub struct AuditContext {
    pub action: Option<Action>,
    pub resource_id: Option<u128>,
    pub user_id: Option<u128>,
}

/// What a state knows of its request: action and resource from the
/// verification on, the user from the policy lookup on, nothing once the
/// request is decided.
pub open spec fn audit_of(state: AccessState) -> AuditContext {
    match state {
        AccessState::Authenticating { action, resource_id } => AuditContext {
            action: Some(action),
            resource_id: Some(resource_id),
            user_id: None,
        },
        AccessState::PolicyLookup { action, resource_id, identity } => AuditContext {
            action: Some(action),
            resource_id: Some(resource_id),
            user_id: Some(identity.user_id),
        },
        AccessState::PermissionResolution { action, resource_id, identity, .. } => AuditContext {
            action: Some(action),
            resource_id: Some(resource_id),
            user_id: Some(identity.user_id),
        },
        AccessState::Allow | AccessState::Deny => AuditContext {
            action: None,
            resource_id: None,
            user_id: None,
        },
    }
}

/// What to log with a denial: the context of the state that the denying
/// event arrived in.
pub fn audit_context(state: &AccessState) -> (context: AuditContext)
    ensures
        context == audit_of(*state),
{
    match state {
        AccessState::Authenticating { action, resource_id } => AuditContext {
            action: Some(*action),
            resource_id: Some(*resource_id),
            user_id: None,
        },
        AccessState::PolicyLookup { action, resource_id, identity } => AuditContext {
            action: Some(*action),
            resource_id: Some(*resource_id),
            user_id: Some(identity.user_id),
        },
        AccessState::PermissionResolution { action, resource_id, identity, .. } => AuditContext {
            action: Some(*action),
            resource_id: Some(*resource_id),
            user_id: Some(identity.user_id),
        },
        _ => AuditContext { action: None, resource_id: None, user_id: None },
    }
}

/// The denial refuses access, as against reporting a failure.
pub open spec fn refuses(denial: Denial) -> bool {
    denial is NotAuthenticated || denial is PermissionDenied
}

/// What a denial shows: a refusal for a session that was not verified and
/// for an identity that may not act, a failure for everything else. Which
/// check failed is not shown either way; a failure keeps its detail for the
/// log.
pub fn denial_response(denial: Denial) -> (response: AppResponse)
    ensures
        refuses(denial) ==> response is Auth,
        !refuses(denial) ==> response is Error,
        denial matches Denial::InvalidResource(message) ==> response == AppResponse::Error(
            message,
        ),
        denial matches Denial::Infrastructure(message) ==> response == AppResponse::Error(message),
        denial is UnknownAction ==> (response matches AppResponse::Error(detail) && detail@
            == "no action fits the request"@),
        denial is OutOfOrder ==> (response matches AppResponse::Error(detail) && detail@
            == "answer out of order"@),
{
    match denial {
        Denial::NotAuthenticated(_) => AppResponse::Auth,
        Denial::PermissionDenied => AppResponse::Auth,
        Denial::InvalidResource(message) => AppResponse::Error(message),
        Denial::Infrastructure(message) => AppResponse::Error(message),
        Denial::UnknownAction => AppResponse::Error(String::from_str("no action fits the request")),
        Denial::OutOfOrder => AppResponse::Error(String::from_str("answer out of order")),
    }
}

/// The policy service is asked only for a verified identity: no other state
/// and no other event leads to that call.
pub proof fn lemma_policy_lookup_needs_claims(state: AccessState, event: AccessEvent)
    requires
        next(state, event).1 is LookupPolicy,
    ensures
        state is Authenticating,
        event matches AccessEvent::Verified(Ok(identity)) && next(state, event).1 == (AccessCommand::LookupPolicy {
            action: state->Authenticating_action,
            identity,
        }),
{
}

/// A session that was not verified is denied at once.
pub proof fn lemma_auth_failure_denies(state: AccessState, failure: AuthFailure)
    requires
        state is Authenticating,
    ensures
        next(state, AccessEvent::Verified(Err(failure))) == (
            AccessState::Deny,
            AccessCommand::Reject(Denial::NotAuthenticated(failure)),
        ),
{
}

/// Project ownership allows without a question to the store.
pub proof fn lemma_project_owner_allowed(state: AccessState, grant: PermissionCheckResponse)
    requires
        state is PolicyLookup,
        grant.is_project_owner,
    ensures
        next(state, AccessEvent::Policy(Ok(grant))) == (AccessState::Allow, AccessCommand::Proceed),
{
}

/// The protected operation runs only on entering `Allow`, and `Allow` is
/// entered only by project ownership or by a row that the store found.
pub proof fn lemma_proceed_is_earned(state: AccessState, event: AccessEvent)
    requires
        next(state, event).1 is Proceed || (next(state, event).0 is Allow && !(state is Allow)),
    ensures
        next(state, event) == (AccessState::Allow, AccessCommand::Proceed),
        (state is PolicyLookup && (event matches AccessEvent::Policy(Ok(grant))
            && grant.is_project_owner)) || (state is PermissionResolution && event
            == AccessEvent::Store(QueryOutcome::Found)),
{
}

/// A store that fails, and a store that finds no row, deny.
pub proof fn lemma_store_failure_denies(state: AccessState, outcome: QueryOutcome)
    requires
        state is PermissionResolution,
        !(outcome is Found),
    ensures
        next(state, AccessEvent::Store(outcome)).0 == AccessState::Deny,
        next(state, AccessEvent::Store(outcome)).1 is Reject,
{
}

/// How far a request has come.
pub open spec fn rank(state: AccessState) -> nat {
    match state {
        AccessState::Authenticating { .. } => 0,
        AccessState::PolicyLookup { .. } => 1,
        AccessState::PermissionResolution { .. } => 2,
        AccessState::Allow | AccessState::Deny => 3,
    }
}

/// Every event moves an undecided request forward, so a request is decided
/// after three events at most, and no call is asked for twice: the
/// verification only on receiving the request, the policy only after the
/// verification, the store only after the policy.
pub proof fn lemma_each_call_once(state: AccessState, event: AccessEvent)
    requires
        !(state is Allow || state is Deny),
    ensures
        rank(next(state, event).0) > rank(state),
        !(next(state, event).1 is Verify),
        next(state, event).1 is LookupPolicy ==> state is Authenticating,
        next(state, event).1 is QueryStore ==> state is PolicyLookup,
        next(state, event).1 is Nothing ==> false,
{
}

/// Where a classified request ends once its calls have answered. A call
/// that the request never comes to makes no difference.
pub open spec fn decided(
    action: Action,
    resource_id: u128,
    verification: Result<Claims, AuthFailure>,
    policy: Result<PermissionCheckResponse, String>,
    store: QueryOutcome,
) -> AccessState {
    let start = AccessState::Authenticating { action, resource_id };
    let verified = next(start, AccessEvent::Verified(verification)).0;
    let looked_up = next(verified, AccessEvent::Policy(policy)).0;
    next(looked_up, AccessEvent::Store(store)).0
}

/// What the store answers to the resolver's question on the rows it holds.
pub open spec fn answer_of(
    store: Store,
    identity: Claims,
    resource_id: u128,
    grant: PermissionCheckResponse,
) -> QueryOutcome {
    if store.grants(identity, resource_id, grant) {
        QueryOutcome::Found
    } else {
        QueryOutcome::NotFound
    }
}

/// A request is allowed exactly where its session is verified, its policy
/// is found, and the policy names the project's owner or the store finds a
/// row; it is denied everywhere else.
pub proof fn lemma_allowed_iff(
    action: Action,
    resource_id: u128,
    verification: Result<Claims, AuthFailure>,
    policy: Result<PermissionCheckResponse, String>,
    store: QueryOutcome,
)
    ensures
        decided(action, resource_id, verification, policy, store) is Allow <==> (verification is Ok
            && (policy matches Ok(grant) && (grant.is_project_owner || store is Found))),
        !(decided(action, resource_id, verification, policy, store) is Allow) ==> decided(
            action,
            resource_id,
            verification,
            policy,
            store,
        ) is Deny,
{
}

/// Over a store that answers from its rows, the middleware allows exactly
/// what the resolver allows to the verified identity.
pub proof fn lemma_allowed_as_resolved(
    action: Action,
    resource_id: u128,
    identity: Claims,
    grant: PermissionCheckResponse,
    store: Store,
)
    ensures
        decided(
            action,
            resource_id,
            Ok(identity),
            Ok(grant),
            answer_of(store, identity, resource_id, grant),
        ) is Allow <==> resolves(store, identity, resource_id, grant),
{
}

/// A decided request stays decided.
pub proof fn lemma_terminal_states_absorb(state: AccessState, event: AccessEvent)
    requires
        state is Allow || state is Deny,
    ensures
        next(state, event) == (state, AccessCommand::Nothing),
{
}

} // verus!
