//! Sharing updates.
//!
//! A sharing update names grants. Each grant that has one of the two shapes
//! is written in a transaction of its own: what it replaces is deleted, the
//! grant inserted, and the two committed together or not at all, so that no
//! reader sees the resource between the two.
use vstd::prelude::*;
use vstd::string::*;
use crate::enums::{AppResponse, SuccessActions};
use crate::models::{EntityPermission, PermissionUpdateType};

verus! {

/// A grant to write.
#[derive(Debug, Clone, Copy, PartialEq, Eq, Structural)]
pub enum GrantWrite {
    Role { related_id: u128, role_id: u128 },
    User { related_id: u128, user_id: u128, permission_id: u128 },
}

impl GrantWrite {
    /// The resource that the grant is on.
    pub open spec fn related_id(self) -> u128 {
        match self {
            GrantWrite::Role { related_id, .. } => related_id,
            GrantWrite::User { related_id, .. } => related_id,
        }
    }

    /// The row that the write leaves in the store.
    pub open spec fn row(self) -> EntityPermission {
        match self {
            GrantWrite::Role { related_id, role_id } => EntityPermission {
                related_id,
                user_id: None,
                role_id: Some(role_id),
                permission_id: None,
            },
            GrantWrite::User { related_id, user_id, permission_id } => EntityPermission {
                related_id,
                user_id: Some(user_id),
                role_id: None,
                permission_id: Some(permission_id),
            },
        }
    }
}

/// What an update asks to write: a role grant where it names a role and
/// neither user nor permission, a user grant where it names both user and
/// permission, nothing otherwise.
pub open spec fn grant_write(update: PermissionUpdateType) -> Option<GrantWrite> {
    if update.role_id is Some && update.permission_id is None && update.user_id is None {
        Some(GrantWrite::Role { related_id: update.related_id, role_id: update.role_id->Some_0 })
    } else if update.permission_id is Some && update.user_id is Some {
        Some(
            GrantWrite::User {
                related_id: update.related_id,
                user_id: update.user_id->Some_0,
                permission_id: update.permission_id->Some_0,
            },
        )
    } else {
        None
    }
}

/// Tells the shape of an update.
pub fn classify_grant(update: &PermissionUpdateType) -> (write: Option<GrantWrite>)
    ensures
        write == grant_write(*update),
{
    match (update.role_id, update.permission_id, update.user_id) {
        (Some(role_id), None, None) => Some(
            GrantWrite::Role { related_id: update.related_id, role_id },
        ),
        (_, Some(permission_id), Some(user_id)) => Some(
            GrantWrite::User { related_id: update.related_id, user_id, permission_id },
        ),
        _ => None,
    }
}

/// The writes of a list of updates, in the order of the list.
pub open spec fn grant_writes(updates: Seq<PermissionUpdateType>) -> Seq<GrantWrite>
    decreases updates.len(),
{
    if updates.len() == 0 {
        Seq::empty()
    } else {
        let before = grant_writes(updates.drop_last());
        match grant_write(updates.last()) {
            Some(write) => before.push(write),
            None => before,
        }
    }
}

/// Plans a sharing update: one write for each update that has a shape, in
/// the order given.
pub fn sync_plan(updates: &Vec<PermissionUpdateType>) -> (plan: Vec<GrantWrite>)
    ensures
        plan@ == grant_writes(updates@),
{
    let mut plan: Vec<GrantWrite> = Vec::new();
    let mut i: usize = 0;
    while i < updates.len()
        invariant
            i <= updates.len(),
            plan@ == grant_writes(updates@.subrange(0, i as int)),
        decreases updates.len() - i,
    {
        proof {
            let upto = updates@.subrange(0, i + 1);
            assert(upto.drop_last() =~= updates@.subrange(0, i as int));
            assert(upto.last() == updates@[i as int]);
        }
        if let Some(write) = classify_grant(&updates[i]) {
            plan.push(write);
        }
        i += 1;
    }
    assert(updates@.subrange(0, i as int) =~= updates@);
    plan
}

/// Where the transaction of one write stands.
#[derive(Debug, Clone, Copy, PartialEq, Eq, Structural)]
pub enum SyncState {
    /// What the grant replaces is being deleted.
    Deleting(GrantWrite),
    /// The new grant is being inserted.
    Inserting(GrantWrite),
    /// Both statements succeeded; the commit is under way.
    Committing,
    /// The write is in the store.
    Committed,
    /// The write was given up; the store is as it was.
    RolledBack,
}

/// The statement to run next in a transaction.
#[derive(Debug, Clone, PartialEq, Eq)]
pub enum SyncCommand {
    /// Delete what the grant replaces, by the identifier that the update
    /// names.
    Delete { related_id: u128 },
    /// Insert the grant.
    Insert(GrantWrite),
    /// Commit the transaction.
    Commit,
    /// Roll the transaction back; the message says what failed.
    Rollback(String),
    /// Nothing is left to do.
    Nothing,
}

/// Opens the transaction of a write: the delete comes first.
pub fn begin_sync(write: GrantWrite) -> (r: (SyncState, SyncCommand))
    ensures
        r == (SyncState::Deleting(write), SyncCommand::Delete { related_id: write.related_id() }),
{
    let related_id = match write {
        GrantWrite::Role { related_id, .. } => related_id,
        GrantWrite::User { related_id, .. } => related_id,
    };
    (SyncState::Deleting(write), SyncCommand::Delete { related_id })
}

/// The state and the statement that follow the outcome of a statement.
pub open spec fn sync_next(state: SyncState, outcome: Result<(), String>) -> (
    SyncState,
    SyncCommand,
) {
    match (state, outcome) {
        (SyncState::Committed, _) => (SyncState::Committed, SyncCommand::Nothing),
        (SyncState::RolledBack, _) => (SyncState::RolledBack, SyncCommand::Nothing),
        (_, Err(message)) => (SyncState::RolledBack, SyncCommand::Rollback(message)),
        (SyncState::Deleting(write), Ok(_)) => (
            SyncState::Inserting(write),
            SyncCommand::Insert(write),
        ),
        (SyncState::Inserting(_), Ok(_)) => (SyncState::Committing, SyncCommand::Commit),
        (SyncState::Committing, Ok(_)) => (SyncState::Committed, SyncCommand::Nothing),
    }
}

/// Takes the outcome of a statement and names what follows. A failure at any
/// statement rolls the whole transaction back.
pub fn sync_step(state: SyncState, outcome: Result<(), String>) -> (r: (SyncState, SyncCommand))
    ensures
        r == sync_next(state, outcome),
{
    match state {
        SyncState::Committed => (SyncState::Committed, SyncCommand::Nothing),
        SyncState::RolledBack => (SyncState::RolledBack, SyncCommand::Nothing),
        _ => match outcome {
            Err(message) => (SyncState::RolledBack, SyncCommand::Rollback(message)),
            Ok(_) => match state {
                SyncState::Deleting(write) => (
                    SyncState::Inserting(write),
                    SyncCommand::Insert(write),
                ),
                SyncState::Inserting(_) => (SyncState::Committing, SyncCommand::Commit),
                _ => (SyncState::Committed, SyncCommand::Nothing),
            },
        },
    }
}

/// How a request treats a write that was rolled back.
#[derive(Debug, Clone, Copy, PartialEq, Eq, Structural)]
pub enum SyncPolicy {
    /// The request fails with the message.
    Strict,
    /// The failure is a warning: the next write is tried, and the request
    /// succeeds all the same.
    BestEffort,
}

/// What follows a write that was rolled back.
#[derive(Debug, PartialEq)]
pub enum AfterFailure {
    /// Answer with this and write no more.
    Stop(AppResponse),
    /// Log the message and go on with the next write.
    Warn(String),
}

/// Decides what follows a write that was rolled back with `message`.
pub fn after_rollback(policy: SyncPolicy, message: String) -> (r: AfterFailure)
    ensures
        policy == SyncPolicy::Strict ==> r == AfterFailure::Stop(AppResponse::Error(message)),
        policy == SyncPolicy::BestEffort ==> r == AfterFailure::Warn(message),
{
    match policy {
        SyncPolicy::Strict => AfterFailure::Stop(AppResponse::Error(message)),
        SyncPolicy::BestEffort => AfterFailure::Warn(message),
    }
}

/// What follows when no connection to the store can be had for a write:
/// the request ends, with the failure where the policy is strict, and as a
/// success where the sync is best effort.
pub fn after_connection_failure(policy: SyncPolicy, message: String) -> (response: AppResponse)
    ensures
        policy == SyncPolicy::Strict ==> response == AppResponse::Error(message),
        policy == SyncPolicy::BestEffort ==> (response matches AppResponse::Success(entity, action)
            && entity@ == "Image"@ && action == SuccessActions::Update),
{
    match policy {
        SyncPolicy::Strict => AppResponse::Error(message),
        SyncPolicy::BestEffort => AppResponse::Success(
            String::from_str("Image"),
            SuccessActions::Update,
        ),
    }
}

/// The fields of an image that an update sets.
#[derive(Debug, Clone, PartialEq, Eq)]
pub enum FieldUpdate {
    Nothing,
    Title(String),
    Owner(u128),
    TitleAndOwner(String, u128),
}

/// Which fields an update sets: those it names.
pub fn plan_field_update(title: Option<String>, owner_id: Option<u128>) -> (update: FieldUpdate)
    ensures
        update == (match (title, owner_id) {
            (Some(title), Some(owner)) => FieldUpdate::TitleAndOwner(title, owner),
            (Some(title), None) => FieldUpdate::Title(title),
            (None, Some(owner)) => FieldUpdate::Owner(owner),
            (None, None) => FieldUpdate::Nothing,
        }),
{
    match (title, owner_id) {
        (Some(title), Some(owner)) => FieldUpdate::TitleAndOwner(title, owner),
        (Some(title), None) => FieldUpdate::Title(title),
        (None, Some(owner)) => FieldUpdate::Owner(owner),
        (None, None) => FieldUpdate::Nothing,
    }
}

/// A written row has exactly one of the two shapes.
pub proof fn lemma_written_row_has_one_shape(write: GrantWrite)
    ensures
        write.row().wf(),
        write is Role <==> write.row().is_role_grant(),
        write is User <==> write.row().is_user_grant(),
        write.row().related_id == write.related_id(),
{
}

/// The commit is asked for only after the delete and the insert of the same
/// transaction both succeeded.
pub proof fn lemma_commit_follows_both(state: SyncState, outcome: Result<(), String>)
    requires
        sync_next(state, outcome).1 is Commit,
    ensures
        state is Inserting,
        outcome is Ok,
{
}

/// The insert is asked for only after the delete succeeded, and writes the
/// grant that the transaction was opened for.
pub proof fn lemma_insert_follows_delete(state: SyncState, outcome: Result<(), String>)
    requires
        sync_next(state, outcome).1 is Insert,
    ensures
        outcome is Ok,
        state matches SyncState::Deleting(write) && sync_next(state, outcome).1
            == SyncCommand::Insert(write),
{
}

/// A statement that fails in an open transaction rolls it back, whichever
/// statement it was.
pub proof fn lemma_failure_rolls_back(state: SyncState, message: String)
    requires
        !(state is Committed || state is RolledBack),
    ensures
        sync_next(state, Err(message)) == (SyncState::RolledBack, SyncCommand::Rollback(message)),
{
}

/// What an update of an image does.
#[derive(Debug, PartialEq)]
pub struct UpdatePlan {
    /// The fields to set.
    pub fields: FieldUpdate,
    /// Whether the stored object is replaced by a new encoding.
    pub replace_object: bool,
    /// The grants to write, each in a transaction of its own, best effort.
    pub writes: Vec<GrantWrite>,
}

/// The writes of an update: those of its sharing part, none where it has no
/// such part.
pub open spec fn update_writes(permissions: Option<Vec<PermissionUpdateType>>) -> Seq<GrantWrite> {
    match permissions {
        Some(updates) => grant_writes(updates@),
        None => Seq::empty(),
    }
}

/// Plans the update of an image from what the request carries: the fields
/// it names, whether it brings a file, and its sharing part.
pub fn update_asset(
    title: Option<String>,
    owner_id: Option<u128>,
    has_file: bool,
    permissions: Option<Vec<PermissionUpdateType>>,
) -> (plan: UpdatePlan)
    ensures
        plan.fields == (match (title, owner_id) {
            (Some(title), Some(owner)) => FieldUpdate::TitleAndOwner(title, owner),
            (Some(title), None) => FieldUpdate::Title(title),
            (None, Some(owner)) => FieldUpdate::Owner(owner),
            (None, None) => FieldUpdate::Nothing,
        }),
        plan.replace_object == has_file,
        plan.writes@ == update_writes(permissions),
{
    let writes = match &permissions {
        Some(updates) => sync_plan(updates),
        None => Vec::new(),
    };
    UpdatePlan { fields: plan_field_update(title, owner_id), replace_object: has_file, writes }
}

/// The response of an update that went through.
pub fn update_finished() -> (response: AppResponse)
    ensures
        response matches AppResponse::Success(entity, action) && entity@ == "Image"@ && action
            == SuccessActions::Update,
{
    AppResponse::Success(String::from_str("Image"), SuccessActions::Update)
}

} // verus!
