use hakata_perpetuals::admin::{Admin, Permissions};

#[test]
fn test_has_permissions() {
    let admin = Admin {
        address: [0u8; 32],
        bump: 255,
        permissions: Permissions::WithdrawFees,
    };
    assert!(admin.has_permissions(Permissions::ChangePermissions));
    assert!(admin.has_permissions(Permissions::WithdrawFees));
    assert!(!admin.has_permissions(Permissions::Superadmin));
}

#[test]
fn test_has_permissions_over() {
    let super_admin = Admin {
        address: [1u8; 32],
        bump: 254,
        permissions: Permissions::Superadmin,
    };
    // A superadmin stands above everything, itself included.
    assert!(super_admin.has_permissions_over(Permissions::Superadmin));
    assert!(super_admin.has_permissions_over(Permissions::WithdrawFees));

    let admin = Admin {
        address: [2u8; 32],
        bump: 253,
        permissions: Permissions::WithdrawFees,
    };
    assert!(admin.has_permissions_over(Permissions::ChangePermissions));
    assert!(!admin.has_permissions_over(Permissions::WithdrawFees));
    assert!(!admin.has_permissions_over(Permissions::Superadmin));
}
