use std::collections::BTreeSet;
use vstd::prelude::*;

verus! {

/// A permission identity.
#[derive(Clone, Debug, PartialEq, Eq, PartialOrd, Ord, Hash)]
pub struct PermissionId(pub String);

/// A permission attribute.
#[derive(Clone, Copy, Debug, PartialEq, Eq, PartialOrd, Ord, Hash, Structural)]
pub enum PermissionAttribute {
    /// Edit permission
    Edit,
    /// Delete permission
    Delete,
    /// Authorize permission
    Authorize,
    /// Report permission
    Report,
    /// Fill permission
    Fill,
    /// Place permission
    Place,
    /// Register permission
    Register,
}

/// A set of permission attributes.
#[derive(Clone, Debug, PartialEq, Eq, PartialOrd, Ord, Hash)]
pub struct PermissionAttributes(pub BTreeSet<PermissionAttribute>);

/// A user's permission on a tournament.
#[derive(Clone, Debug, PartialEq, Eq, PartialOrd, Ord, Hash)]
pub struct Permission {
    /// The permission identifier, once the service has assigned one.
    pub id: Option<PermissionId>,
    /// Email of the permitted user.
    pub email: String,
    /// What the user may do on the tournament.
    pub attributes: PermissionAttributes,
}

impl Permission {
    /// A permission to add to a tournament: no identifier yet, the given email and attributes.
    pub fn create<S: Into<String>>(email: S, attributes: PermissionAttributes) -> (r: Permission)
        ensures
            r.id is None,
            call_ensures(S::into, (email,), r.email),
            r.attributes == attributes,
    {
        Permission { id: None, email: email.into(), attributes }
    }
}

/// A list of permissions.
#[derive(Clone, Debug, PartialEq, Eq, PartialOrd, Ord, Hash)]
pub struct Permissions(pub Vec<Permission>);

} // verus!
