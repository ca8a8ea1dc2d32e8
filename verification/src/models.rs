//! The records that the decisions read.
use vstd::prelude::*;
use crate::enums::ImageType;

verus! {

/// The verified identity of a request.
#[derive(Debug, Clone, Copy, PartialEq, Eq, Structural)]
pub struct Claims {
    pub user_id: u128,
    pub project_id: Option<u128>,
}

/// What the authentication service answers to a verification.
#[derive(Debug, Clone, Copy, PartialEq, Eq, Structural)]
pub struct VerifyJWTResponse {
    pub claims: Option<Claims>,
}

/// What the policy service names as sufficient for an action: project
/// ownership, a role, a permission.
#[derive(Debug, Clone, Copy, PartialEq, Eq, Structural)]
pub struct PermissionCheckResponse {
    pub is_project_owner: bool,
    pub role_id: Option<u128>,
    pub permission_id: Option<u128>,
}

/// A stored image.
#[derive(Debug, Clone, PartialEq, Eq)]
pub struct ImageRecord {
    pub id: u128,
    pub project_id: u128,
    pub owner_id: u128,
    pub image_type: ImageType,
    pub title: String,
}

/// A grant on a resource: of a role, or of a permission to one user.
#[derive(Debug, Clone, Copy, PartialEq, Eq, Structural)]
pub struct EntityPermission {
    pub related_id: u128,
    pub user_id: Option<u128>,
    pub role_id: Option<u128>,
    pub permission_id: Option<u128>,
}

impl EntityPermission {
    /// The row binds a role to the resource, and nothing else.
    pub open spec fn is_role_grant(self) -> bool {
        self.role_id is Some && self.user_id is None && self.permission_id is None
    }

    /// The row binds a permission of one user to the resource, and no role.
    pub open spec fn is_user_grant(self) -> bool {
        self.role_id is None && self.user_id is Some && self.permission_id is Some
    }

    /// The row has exactly one of the two shapes.
    pub open spec fn wf(self) -> bool {
        self.is_role_grant() || self.is_user_grant()
    }
}

/// A grant as a sharing update names it.
#[derive(Debug, Clone, Copy, PartialEq, Eq, Structural)]
pub struct PermissionUpdateType {
    pub related_id: u128,
    pub user_id: Option<u128>,
    pub permission_id: Option<u128>,
    pub role_id: Option<u128>,
}

} // verus!
