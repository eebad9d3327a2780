//! Administrative permission levels.

use vstd::prelude::*;

verus! {

/// Permission levels, in increasing order of authority. The numeric
/// rank of each level is given by [`permission_level`].
#[derive(Clone, Copy, Debug, PartialEq, Eq, Structural)]
pub enum Permissions {
    ChangePermissions,
    WithdrawFees,
    Superadmin,
}

/// Numeric rank of a permission level; higher ranks dominate lower
/// ones, and the superadmin rank stands far above both ordinary levels.
pub open spec fn permission_level(p: Permissions) -> int {
    match p {
        Permissions::ChangePermissions => 1,
        Permissions::WithdrawFees => 2,
        Permissions::Superadmin => 999,
    }
}

/// An administrator: a 32-byte account address, a bump seed and a
/// permission level.
#[derive(Clone, Copy, Debug)]
pub struct Admin {
    pub address: [u8; 32],
    pub bump: u8,
    pub permissions: Permissions,
}

impl Permissions {
    /// The numeric rank of this level.
    pub fn level(&self) -> (r: u32)
        ensures
            r == permission_level(*self),
    {
        match self {
            Permissions::ChangePermissions => 1,
            Permissions::WithdrawFees => 2,
            Permissions::Superadmin => 999,
        }
    }
}

impl Admin {
    /// Whether this administrator may perform `activity`: its level
    /// must be at least the activity's.
    pub fn has_permissions(&self, activity: Permissions) -> (r: bool)
        ensures
            r == (permission_level(self.permissions) >= permission_level(activity)),
    {
        self.permissions.level() >= activity.level()
    }

    /// Whether this administrator stands strictly above `activity`: a
    /// superadmin always does, anyone else only with a strictly higher
    /// level.
    pub fn has_permissions_over(&self, activity: Permissions) -> (r: bool)
        ensures
            r == (self.permissions == Permissions::Superadmin || permission_level(
                self.permissions,
            ) > permission_level(activity)),
    {
        match self.permissions {
            Permissions::Superadmin => true,
            _ => self.permissions.level() > activity.level(),
        }
    }
}

} // verus!
