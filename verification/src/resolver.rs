//! The permission resolver.
//!
//! Project ownership allows at once. Otherwise the store is asked whether
//! the identity owns the resource, or a grant on the resource names the
//! sufficient role, or names the identity with the sufficient permission.
//! A store that fails to answer never allows.
use vstd::prelude::*;
use crate::models::{Claims, EntityPermission, ImageRecord, PermissionCheckResponse};
use crate::permissions::GrantWrite;

verus! {

/// The identity owns the image.
pub open spec fn owns(image: ImageRecord, identity: Claims) -> bool {
    image.owner_id == identity.user_id
}

/// The row grants the role that the policy names.
pub open spec fn role_matches(row: EntityPermission, grant: PermissionCheckResponse) -> bool {
    row.role_id is Some && row.role_id == grant.role_id
}

/// The row grants the identity the permission that the policy names.
pub open spec fn user_matches(
    row: EntityPermission,
    identity: Claims,
    grant: PermissionCheckResponse,
) -> bool {
    &&& row.user_id == Some(identity.user_id)
    &&& row.permission_id is Some
    &&& row.permission_id == grant.permission_id
}

/// The row is a grant on the resource that satisfies the policy.
pub open spec fn row_grants(
    row: EntityPermission,
    identity: Claims,
    resource_id: u128,
    grant: PermissionCheckResponse,
) -> bool {
    row.related_id == resource_id && (role_matches(row, grant) || user_matches(
        row,
        identity,
        grant,
    ))
}

/// Some row satisfies the policy for the resource.
pub open spec fn some_row_grants(
    rows: Seq<EntityPermission>,
    identity: Claims,
    resource_id: u128,
    grant: PermissionCheckResponse,
) -> bool {
    exists|k: int| 0 <= k < rows.len() && row_grants(#[trigger] rows[k], identity, resource_id, grant)
}

/// The images and the grants that a decision is taken on.
#[derive(Debug, Clone, PartialEq, Eq)]
pub struct Store {
    pub images: Vec<ImageRecord>,
    pub permissions: Vec<EntityPermission>,
}

impl Store {
    /// The store holds an image of this identifier.
    pub open spec fn has_image(self, id: u128) -> bool {
        exists|k: int| 0 <= k < self.images@.len() && (#[trigger] self.images@[k]).id == id
    }

    /// The store holds an image of this identifier that the identity owns.
    pub open spec fn has_owned_image(self, id: u128, identity: Claims) -> bool {
        exists|k: int|
            0 <= k < self.images@.len() && (#[trigger] self.images@[k]).id == id && owns(
                self.images@[k],
                identity,
            )
    }

    /// Every grant has one shape and belongs to an image of the store, no
    /// image and no grant is held twice.
    pub open spec fn wf(self) -> bool {
        &&& forall|k: int| 0 <= k < self.permissions@.len() ==> (#[trigger] self.permissions@[k]).wf()
        &&& forall|k: int|
            0 <= k < self.permissions@.len() ==> self.has_image(
                (#[trigger] self.permissions@[k]).related_id,
            )
        &&& forall|j: int, k: int|
            0 <= j < k < self.images@.len() ==> (#[trigger] self.images@[j]).id
                != (#[trigger] self.images@[k]).id
        &&& forall|j: int, k: int|
            0 <= j < k < self.permissions@.len() ==> #[trigger] self.permissions@[j]
                != #[trigger] self.permissions@[k]
    }

    /// What the store answers: the resource exists, and the identity owns it
    /// or a grant on it satisfies the policy.
    pub open spec fn grants(
        self,
        identity: Claims,
        resource_id: u128,
        grant: PermissionCheckResponse,
    ) -> bool {
        self.has_image(resource_id) && (self.has_owned_image(resource_id, identity)
            || some_row_grants(self.permissions@, identity, resource_id, grant))
    }

    /// A store that holds nothing.
    pub fn new() -> (store: Store)
        ensures
            store.wf(),
            store.images@.len() == 0,
            store.permissions@.len() == 0,
    {
        Store { images: Vec::new(), permissions: Vec::new() }
    }

    /// Where the image of this identifier stands, if the store holds one.
    fn image_index(&self, id: u128) -> (found: Option<usize>)
        ensures
            found is Some <==> self.has_image(id),
            found matches Some(k) ==> k < self.images@.len() && self.images@[k as int].id == id,
    {
        let mut i: usize = 0;
        while i < self.images.len()
            invariant
                i <= self.images.len(),
                forall|k: int| 0 <= k < i ==> (#[trigger] self.images@[k]).id != id,
            decreases self.images.len() - i,
        {
            if self.images[i].id == id {
                return Some(i);
            }
            i += 1;
        }
        None
    }

    /// Whether the store holds this very row.
    fn holds_row(&self, row: &EntityPermission) -> (found: bool)
        ensures
            found == self.permissions@.contains(*row),
    {
        let mut i: usize = 0;
        while i < self.permissions.len()
            invariant
                i <= self.permissions.len(),
                forall|k: int| 0 <= k < i ==> self.permissions@[k] != *row,
            decreases self.permissions.len() - i,
        {
            if self.permissions[i] == *row {
                return true;
            }
            i += 1;
        }
        false
    }

    /// Adds an image, unless the store holds one of its identifier.
    pub fn insert_image(&mut self, image: ImageRecord) -> (added: bool)
        requires
            old(self).wf(),
        ensures
            final(self).wf(),
            added == !old(self).has_image(image.id),
            added ==> final(self).images@ == old(self).images@.push(image),
            !added ==> final(self).images@ == old(self).images@,
            final(self).permissions@ == old(self).permissions@,
    {
        if self.image_index(image.id).is_some() {
            return false;
        }
        let ghost before = *self;
        self.images.push(image);
        proof {
            assert forall|k: int| 0 <= k < self.permissions@.len() implies self.has_image(
                (#[trigger] self.permissions@[k]).related_id,
            ) by {
                let related = self.permissions@[k].related_id;
                assert(before.has_image(before.permissions@[k].related_id));
                let j = choose|j: int|
                    0 <= j < before.images@.len() && (#[trigger] before.images@[j]).id == related;
                assert(self.images@[j].id == related);
            }
        }
        true
    }

    /// Writes a grant: the row is created, or left in place where the store
    /// holds it already. Nothing is written for a resource that the store
    /// does not hold.
    pub fn put_grant(&mut self, write: GrantWrite) -> (written: bool)
        requires
            old(self).wf(),
        ensures
            final(self).wf(),
            final(self).images@ == old(self).images@,
            written == (old(self).has_image(write.related_id()) && !old(self).permissions@.contains(write.row())),
            written ==> final(self).permissions@ == old(self).permissions@.push(write.row()),
            !written ==> final(self).permissions@ == old(self).permissions@,
            old(self).has_image(write.related_id()) ==> final(self).permissions@.contains(
                write.row(),
            ),
    {
        let row = match write {
            GrantWrite::Role { related_id, role_id } => EntityPermission {
                related_id,
                user_id: None,
                role_id: Some(role_id),
                permission_id: None,
            },
            GrantWrite::User { related_id, user_id, permission_id } => EntityPermission {
                related_id,
                user_id: Some(user_id),
                role_id: None,
                permission_id: Some(permission_id),
            },
        };
        if self.image_index(row.related_id).is_none() || self.holds_row(&row) {
            return false;
        }
        let ghost before = *self;
        self.permissions.push(row);
        proof {
            assert(self.permissions@.last() == row);
            assert forall|k: int| 0 <= k < self.permissions@.len() implies self.has_image(
                (#[trigger] self.permissions@[k]).related_id,
            ) by {
                let related = self.permissions@[k].related_id;
                if k < before.permissions@.len() {
                    assert(before.has_image(before.permissions@[k].related_id));
                } else {
                    assert(before.has_image(related));
                }
                let j = choose|j: int|
                    0 <= j < before.images@.len() && (#[trigger] before.images@[j]).id == related;
                assert(self.images@[j].id == related);
            }
        }
        true
    }

    /// Deletes an image and, with it, the grants on it.
    pub fn delete_image(&mut self, id: u128) -> (deleted: bool)
        requires
            old(self).wf(),
        ensures
            final(self).wf(),
            deleted == old(self).has_image(id),
            !final(self).has_image(id),
            forall|k: int|
                0 <= k < final(self).permissions@.len() ==> (#[trigger] final(self).permissions@[k]).related_id != id,
            !deleted ==> final(self).images@ == old(self).images@ && final(self).permissions@
                == old(self).permissions@,
            final(self).images@ == old(self).images@.filter(|image: ImageRecord| image.id != id),
            final(self).permissions@ == old(self).permissions@.filter(
                |row: EntityPermission| row.related_id != id,
            ),
    {
        let ghost before = *self;
        let ghost keep = |row: EntityPermission| row.related_id != id;
        match self.image_index(id) {
            None => {
                proof {
                    assert forall|k: int| 0 <= k < before.permissions@.len() implies keep(
                        #[trigger] before.permissions@[k],
                    ) by {
                        assert(before.has_image(before.permissions@[k].related_id));
                    }
                    lemma_filter_identity(before.permissions@, keep);
                    lemma_filter_identity(before.images@, |image: ImageRecord| image.id != id);
                }
                false
            },
            Some(at) => {
                let _ = self.images.remove(at);
                let mut kept: Vec<EntityPermission> = Vec::new();
                let mut i: usize = 0;
                while i < self.permissions.len()
                    invariant
                        i <= self.permissions.len(),
                        self.permissions@ == before.permissions@,
                        keep == (|row: EntityPermission| row.related_id != id),
                        kept@ == before.permissions@.subrange(0, i as int).filter(keep),
                    decreases self.permissions.len() - i,
                {
                    proof {
                        reveal(Seq::filter);
                        let upto = before.permissions@.subrange(0, i + 1);
                        assert(upto.drop_last() =~= before.permissions@.subrange(0, i as int));
                        assert(upto.last() == before.permissions@[i as int]);
                    }
                    if self.permissions[i].related_id != id {
                        kept.push(self.permissions[i]);
                    }
                    i += 1;
                }
                self.permissions = kept;
                proof {
                    lemma_remove_is_filter(
                        before.images@,
                        at as int,
                        |image: ImageRecord| image.id != id,
                    );
                    assert(before.permissions@.subrange(0, i as int) =~= before.permissions@);
                    lemma_filter_keeps(before.permissions@, keep);
                    let rows = self.permissions@;
                    let images = self.images@;
                    assert forall|k: int| 0 <= k < images.len() implies (#[trigger] images[k]).id
                        != id by {
                        if k < at {
                            assert(images[k] == before.images@[k]);
                        } else {
                            assert(images[k] == before.images@[k + 1]);
                        }
                    }
                    assert forall|k: int| 0 <= k < rows.len() implies self.has_image(
                        (#[trigger] rows[k]).related_id,
                    ) by {
                        let related = rows[k].related_id;
                        assert(before.permissions@.contains(rows[k]));
                        let r = choose|r: int|
                            0 <= r < before.permissions@.len() && before.permissions@[r]
                                == rows[k];
                        assert(before.has_image(before.permissions@[r].related_id));
                        let j = choose|j: int|
                            0 <= j < before.images@.len() && (#[trigger] before.images@[j]).id
                                == related;
                        if j < at {
                            assert(images[j].id == related);
                        } else {
                            assert(images[j - 1].id == related);
                        }
                    }
                    assert forall|k: int| 0 <= k < rows.len() implies (#[trigger] rows[k]).wf() by {
                        assert(before.permissions@.contains(rows[k]));
                    }
                    assert forall|j: int, k: int| 0 <= j < k < images.len() implies (
                    #[trigger] images[j]).id != (#[trigger] images[k]).id by {
                        let from_j = if j < at { j } else { j + 1 };
                        let from_k = if k < at { k } else { k + 1 };
                        assert(images[j] == before.images@[from_j]);
                        assert(images[k] == before.images@[from_k]);
                    }
                }
                true
            },
        }
    }

    /// Whether the store holds an image of this identifier, and whether it
    /// holds one that the identity owns.
    fn find_image(&self, id: u128, identity: &Claims) -> (found: (bool, bool))
        ensures
            found.0 == self.has_image(id),
            found.1 == self.has_owned_image(id, *identity),
    {
        let mut present = false;
        let mut owned = false;
        let mut i: usize = 0;
        while i < self.images.len()
            invariant
                i <= self.images.len(),
                present == (exists|k: int|
                    0 <= k < i && (#[trigger] self.images@[k]).id == id),
                owned == (exists|k: int|
                    0 <= k < i && (#[trigger] self.images@[k]).id == id && owns(
                        self.images@[k],
                        *identity,
                    )),
            decreases self.images.len() - i,
        {
            if self.images[i].id == id {
                present = true;
                if self.images[i].owner_id == identity.user_id {
                    owned = true;
                }
            }
            i += 1;
        }
        (present, owned)
    }

    /// Whether some grant satisfies the policy for the resource.
    fn find_grant(
        &self,
        identity: &Claims,
        resource_id: u128,
        grant: &PermissionCheckResponse,
    ) -> (found: bool)
        ensures
            found == some_row_grants(self.permissions@, *identity, resource_id, *grant),
    {
        let mut i: usize = 0;
        while i < self.permissions.len()
            invariant
                i <= self.permissions.len(),
                forall|k: int|
                    0 <= k < i ==> !row_grants(
                        #[trigger] self.permissions@[k],
                        *identity,
                        resource_id,
                        *grant,
                    ),
            decreases self.permissions.len() - i,
        {
            let row = &self.permissions[i];
            if row.related_id == resource_id {
                let by_role = match (row.role_id, grant.role_id) {
                    (Some(held), Some(wanted)) => held == wanted,
                    _ => false,
                };
                let by_user = match (row.user_id, row.permission_id, grant.permission_id) {
                    (Some(user), Some(held), Some(wanted)) => user == identity.user_id && held
                        == wanted,
                    _ => false,
                };
                if by_role || by_user {
                    return true;
                }
            }
            i += 1;
        }
        false
    }

    /// Answers the resolver's question from the rows held.
    pub fn query(
        &self,
        identity: &Claims,
        resource_id: u128,
        grant: &PermissionCheckResponse,
    ) -> (found: bool)
        ensures
            found == self.grants(*identity, resource_id, *grant),
    {
        let (present, owned) = self.find_image(resource_id, identity);
        present && (owned || self.find_grant(identity, resource_id, grant))
    }
}

/// What a filter keeps was there before and passes the filter, and what
/// was held once is kept once.
proof fn lemma_filter_keeps(rows: Seq<EntityPermission>, keep: spec_fn(EntityPermission) -> bool)
    ensures
        forall|k: int|
            0 <= k < rows.filter(keep).len() ==> rows.contains(#[trigger] rows.filter(keep)[k])
                && keep(rows.filter(keep)[k]),
        (forall|j: int, k: int| 0 <= j < k < rows.len() ==> rows[j] != rows[k]) ==> (forall|
            j: int,
            k: int,
        |
            0 <= j < k < rows.filter(keep).len() ==> #[trigger] rows.filter(keep)[j]
                != #[trigger] rows.filter(keep)[k]),
    decreases rows.len(),
{
    reveal(Seq::filter);
    if rows.len() > 0 {
        let shorter = rows.drop_last();
        lemma_filter_keeps(shorter, keep);
        let kept = rows.filter(keep);
        assert forall|k: int| 0 <= k < kept.len() implies rows.contains(#[trigger] kept[k])
            && keep(kept[k]) by {
            if k < shorter.filter(keep).len() {
                assert(kept[k] == shorter.filter(keep)[k]);
                let r = choose|r: int| 0 <= r < shorter.len() && shorter[r] == kept[k];
                assert(rows[r] == kept[k]);
            } else {
                assert(kept[k] == rows.last());
                assert(rows[rows.len() - 1] == kept[k]);
            }
        }
        if forall|j: int, k: int| 0 <= j < k < rows.len() ==> rows[j] != rows[k] {
            assert forall|j: int, k: int| 0 <= j < k < shorter.len() implies shorter[j]
                != shorter[k] by {
                assert(shorter[j] == rows[j] && shorter[k] == rows[k]);
            }
            assert forall|j: int, k: int| 0 <= j < k < kept.len() implies #[trigger] kept[j]
                != #[trigger] kept[k] by {
                if k < shorter.filter(keep).len() {
                    assert(kept[j] == shorter.filter(keep)[j]);
                    assert(kept[k] == shorter.filter(keep)[k]);
                } else {
                    assert(kept[k] == rows.last());
                    assert(kept[j] == shorter.filter(keep)[j]);
                    let r = choose|r: int| 0 <= r < shorter.len() && shorter[r] == kept[j];
                    assert(rows[r] == kept[j]);
                }
            }
        }
    }
}

/// A filter that everything passes keeps everything.
proof fn lemma_filter_identity<T>(items: Seq<T>, keep: spec_fn(T) -> bool)
    requires
        forall|k: int| 0 <= k < items.len() ==> keep(#[trigger] items[k]),
    ensures
        items.filter(keep) == items,
    decreases items.len(),
{
    reveal(Seq::filter);
    if items.len() > 0 {
        let shorter = items.drop_last();
        assert forall|k: int| 0 <= k < shorter.len() implies keep(#[trigger] shorter[k]) by {
            assert(shorter[k] == items[k]);
        }
        lemma_filter_identity(shorter, keep);
        assert(keep(items[items.len() - 1]));
        assert(shorter.push(items.last()) =~= items);
    } else {
        assert(items.filter(keep) =~= items);
    }
}

/// Where no two images share an identifier, taking out the image at a place
/// is filtering on its identifier.
proof fn lemma_remove_is_filter(images: Seq<ImageRecord>, at: int, keep: spec_fn(ImageRecord) -> bool)
    requires
        0 <= at < images.len(),
        forall|j: int, k: int|
            0 <= j < k < images.len() ==> (#[trigger] images[j]).id != (#[trigger] images[k]).id,
        forall|image: ImageRecord| #[trigger] keep(image) == (image.id != images[at].id),
    ensures
        images.filter(keep) == images.remove(at),
    decreases images.len(),
{
    reveal(Seq::filter);
    let shorter = images.drop_last();
    if at == images.len() - 1 {
        assert forall|k: int| 0 <= k < shorter.len() implies keep(#[trigger] shorter[k]) by {
            assert(shorter[k] == images[k]);
        }
        lemma_filter_identity(shorter, keep);
        assert(images.remove(at) =~= shorter);
    } else {
        assert(shorter[at] == images[at]);
        assert forall|j: int, k: int| 0 <= j < k < shorter.len() implies (#[trigger] shorter[j]).id
            != (#[trigger] shorter[k]).id by {
            assert(shorter[j] == images[j] && shorter[k] == images[k]);
        }
        lemma_remove_is_filter(shorter, at, keep);
        assert(images[images.len() - 1].id != images[at].id);
        assert(shorter.remove(at).push(images.last()) =~= images.remove(at));
    }
}

/// What the resolver needs from the store, if anything.
#[derive(Debug, Clone, Copy, PartialEq, Eq, Structural)]
pub enum Lookup {
    /// Project ownership decides: the store is not asked.
    NotNeeded,
    /// Ask whether a row satisfies ownership, role or user grant.
    Query { resource_id: u128, user_id: u128, role_id: Option<u128>, permission_id: Option<u128> },
}

/// What the store answered.
#[derive(Debug, Clone, PartialEq, Eq)]
pub enum QueryOutcome {
    Found,
    NotFound,
    Failed(String),
}

/// What the resolver concluded.
#[derive(Debug, Clone, PartialEq, Eq)]
pub enum Resolution {
    Granted,
    Denied,
    /// The store failed; access is denied, and the cause is kept apart from
    /// a genuine denial.
    StoreFailure(String),
}

impl Resolution {
    pub open spec fn allows_spec(&self) -> bool {
        self is Granted
    }

    /// The net effect on access.
    #[verifier::when_used_as_spec(allows_spec)]
    pub fn allows(&self) -> (allowed: bool)
        ensures
            allowed == self.allows_spec(),
    {
        match self {
            Resolution::Granted => true,
            _ => false,
        }
    }
}

/// The first step of a resolution: project ownership overrides, anything
/// else is a question to the store.
pub fn plan(identity: &Claims, resource_id: u128, grant: &PermissionCheckResponse) -> (lookup:
    Lookup)
    ensures
        grant.is_project_owner ==> lookup == Lookup::NotNeeded,
        !grant.is_project_owner ==> lookup == (Lookup::Query {
            resource_id,
            user_id: identity.user_id,
            role_id: grant.role_id,
            permission_id: grant.permission_id,
        }),
{
    if grant.is_project_owner {
        Lookup::NotNeeded
    } else {
        Lookup::Query {
            resource_id,
            user_id: identity.user_id,
            role_id: grant.role_id,
            permission_id: grant.permission_id,
        }
    }
}

/// The second step: a row found allows, none found denies, and a store that
/// failed denies with its message.
pub fn conclude(outcome: QueryOutcome) -> (resolution: Resolution)
    ensures
        outcome is Found ==> resolution == Resolution::Granted,
        outcome is NotFound ==> resolution == Resolution::Denied,
        outcome matches QueryOutcome::Failed(message) ==> resolution == Resolution::StoreFailure(
            message,
        ),
        resolution.allows() <==> outcome is Found,
{
    match outcome {
        QueryOutcome::Found => Resolution::Granted,
        QueryOutcome::NotFound => Resolution::Denied,
        QueryOutcome::Failed(message) => Resolution::StoreFailure(message),
    }
}

/// Whether the identity may act on the resource, given the rows held.
pub open spec fn resolves(
    store: Store,
    identity: Claims,
    resource_id: u128,
    grant: PermissionCheckResponse,
) -> bool {
    grant.is_project_owner || store.grants(identity, resource_id, grant)
}

/// Decides whether the identity may act on the resource.
pub fn resolve(
    identity: &Claims,
    resource_id: u128,
    grant: &PermissionCheckResponse,
    store: &Store,
) -> (allowed: bool)
    ensures
        allowed == resolves(*store, *identity, resource_id, *grant),
{
    match plan(identity, resource_id, grant) {
        Lookup::NotNeeded => true,
        Lookup::Query { .. } => {
            let outcome = if store.query(identity, resource_id, grant) {
                QueryOutcome::Found
            } else {
                QueryOutcome::NotFound
            };
            conclude(outcome).allows()
        },
    }
}

/// Project ownership allows, whatever rows the store holds.
pub proof fn lemma_project_owner_resolves(
    store: Store,
    identity: Claims,
    resource_id: u128,
    grant: PermissionCheckResponse,
)
    requires
        grant.is_project_owner,
    ensures
        resolves(store, identity, resource_id, grant),
{
}

/// The owner of a resource is allowed, even where the store holds no grant.
pub proof fn lemma_resource_owner_resolves(
    store: Store,
    identity: Claims,
    image: ImageRecord,
    grant: PermissionCheckResponse,
)
    requires
        store.images@.contains(image),
        image.owner_id == identity.user_id,
    ensures
        resolves(store, identity, image.id, grant),
{
    let k = choose|k: int| 0 <= k < store.images@.len() && store.images@[k] == image;
    assert(store.images@[k].id == image.id && owns(store.images@[k], identity));
}

/// Without project ownership, an owned image or a satisfying row, access is
/// denied.
pub proof fn lemma_no_match_denies(
    store: Store,
    identity: Claims,
    resource_id: u128,
    grant: PermissionCheckResponse,
)
    requires
        !grant.is_project_owner,
        forall|k: int|
            0 <= k < store.images@.len() && (#[trigger] store.images@[k]).id == resource_id
                ==> store.images@[k].owner_id != identity.user_id,
        forall|k: int|
            0 <= k < store.permissions@.len() ==> !row_grants(
                #[trigger] store.permissions@[k],
                identity,
                resource_id,
                grant,
            ),
    ensures
        !resolves(store, identity, resource_id, grant),
{
}

/// A role grant on an image of the store allows whoever the policy asks
/// that role of.
pub proof fn lemma_role_grant_resolves(
    store: Store,
    identity: Claims,
    row: EntityPermission,
    grant: PermissionCheckResponse,
)
    requires
        store.wf(),
        store.permissions@.contains(row),
        row.role_id is Some,
        grant.role_id == row.role_id,
    ensures
        resolves(store, identity, row.related_id, grant),
{
    let k = choose|k: int| 0 <= k < store.permissions@.len() && store.permissions@[k] == row;
    assert(row_grants(store.permissions@[k], identity, row.related_id, grant));
    assert(store.has_image(store.permissions@[k].related_id));
}

/// A user grant on an image of the store allows the user it names, where the
/// policy asks the permission it holds.
pub proof fn lemma_user_grant_resolves(
    store: Store,
    identity: Claims,
    row: EntityPermission,
    grant: PermissionCheckResponse,
)
    requires
        store.wf(),
        store.permissions@.contains(row),
        row.user_id == Some(identity.user_id),
        row.permission_id is Some,
        grant.permission_id == row.permission_id,
    ensures
        resolves(store, identity, row.related_id, grant),
{
    let k = choose|k: int| 0 <= k < store.permissions@.len() && store.permissions@[k] == row;
    assert(row_grants(store.permissions@[k], identity, row.related_id, grant));
    assert(store.has_image(store.permissions@[k].related_id));
}

/// A store that fails never allows.
pub proof fn lemma_store_failure_denies(resolution: Resolution)
    requires
        resolution is StoreFailure,
    ensures
        !resolution.allows(),
{
}

} // verus!
