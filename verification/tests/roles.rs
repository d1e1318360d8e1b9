use himawari::role::{Role, RoleError};

#[test]
fn collaborator_is_not_owner() {
    assert!(Role::Collaborator.ensure_at_least(Role::Owner).is_err());
}

#[test]
fn admin_is_at_least_owner() {
    assert!(Role::Admin.ensure_at_least(Role::Owner).is_ok());
}

#[test]
fn owner_is_at_least_owner() {
    assert!(Role::Owner.ensure_at_least(Role::Owner).is_ok());
}

#[test]
fn every_role_is_at_least_itself() {
    let roles = vec![
        Role::NoRole,
        Role::Collaborator,
        Role::Owner,
        Role::Moderator,
        Role::Admin,
    ];
    for r in roles {
        assert!(r.ensure_at_least(r).is_ok());
    }
}

#[test]
fn no_role_is_below_everything_else() {
    assert!(Role::NoRole.ensure_at_least(Role::Collaborator).is_err());
    assert!(Role::NoRole.ensure_at_least(Role::Admin).is_err());
    assert!(Role::NoRole.ensure_at_least(Role::NoRole).is_ok());
}

#[test]
fn failure_names_the_required_role() {
    let err = Role::Collaborator.ensure_at_least(Role::Moderator).unwrap_err();
    assert_eq!(
        err,
        RoleError::MustBeAtLeast {
            required: Role::Moderator
        }
    );
}

#[test]
fn order_is_the_listed_order() {
    assert!(Role::Collaborator.ensure_at_least(Role::NoRole).is_ok());
    assert!(Role::Owner.ensure_at_least(Role::Collaborator).is_ok());
    assert!(Role::Moderator.ensure_at_least(Role::Owner).is_ok());
    assert!(Role::Admin.ensure_at_least(Role::Moderator).is_ok());
    assert!(Role::Moderator.ensure_at_least(Role::Admin).is_err());
}
