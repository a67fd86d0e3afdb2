use omnia::environment::{insert_new_environment, EnvironmentStore};
use omnia::interface_types::EnvironmentCreationInput;
use omnia::profile::{
    get_user_profile, reset_user_from_environment, set_user_in_environment, try_get_user_profile,
    try_reset_user_from_environment, try_set_user_in_environment, user_principal_bytes,
    ProfileError, ProfileStore,
};

const ANONYMOUS: &str = "2vxsx-fae";
const MANAGEMENT: &str = "aaaaa-aa";

fn store_with_environment(uid: u32) -> EnvironmentStore {
    let mut store = EnvironmentStore::new();
    insert_new_environment(
        &mut store,
        "manager".to_string(),
        EnvironmentCreationInput { env_name: "home".to_string() },
        uid,
    );
    store
}

#[test]
fn invalid_principal_is_refused() {
    let mut profiles = ProfileStore::new();
    let envs = store_with_environment(1);
    assert!(matches!(
        try_get_user_profile(&mut profiles, "not a principal".to_string()),
        Err(ProfileError::InvalidPrincipal)
    ));
    assert!(matches!(
        try_set_user_in_environment(&mut profiles, &envs, "zzz".to_string(), 1),
        Err(ProfileError::InvalidPrincipal)
    ));
    assert!(matches!(
        try_reset_user_from_environment(&mut profiles, &envs, "".to_string()),
        Err(ProfileError::InvalidPrincipal)
    ));
}

#[test]
fn first_read_creates_a_profile() {
    let mut profiles = ProfileStore::new();
    let profile = get_user_profile(&mut profiles, ANONYMOUS.to_string());
    assert_eq!(profile.user_principal_id, ANONYMOUS);
    assert_eq!(profile.environment_uid, None);
    assert!(profiles.get_user_profile_if_exists(&[4]).is_some());
}

#[test]
fn profile_text_is_the_printed_principal() {
    let mut profiles = ProfileStore::new();
    let profile = get_user_profile(&mut profiles, "2VXSX-FAE".to_string());
    assert_eq!(profile.user_principal_id, ANONYMOUS);
}

#[test]
fn second_read_gives_the_same_profile() {
    let mut profiles = ProfileStore::new();
    let first = get_user_profile(&mut profiles, MANAGEMENT.to_string());
    let second = get_user_profile(&mut profiles, MANAGEMENT.to_string());
    assert_eq!(first.user_principal_id, second.user_principal_id);
    assert_eq!(first.environment_uid, second.environment_uid);
}

#[test]
fn set_without_profile_is_refused() {
    let mut profiles = ProfileStore::new();
    let envs = store_with_environment(1);
    assert!(matches!(
        try_set_user_in_environment(&mut profiles, &envs, ANONYMOUS.to_string(), 1),
        Err(ProfileError::ProfileNotFound)
    ));
}

#[test]
fn set_into_missing_environment_is_refused() {
    let mut profiles = ProfileStore::new();
    let envs = store_with_environment(1);
    get_user_profile(&mut profiles, ANONYMOUS.to_string());
    assert!(matches!(
        try_set_user_in_environment(&mut profiles, &envs, ANONYMOUS.to_string(), 2),
        Err(ProfileError::EnvironmentNotFound)
    ));
    let profile = get_user_profile(&mut profiles, ANONYMOUS.to_string());
    assert_eq!(profile.environment_uid, None);
}

#[test]
fn set_then_reset() {
    let mut profiles = ProfileStore::new();
    let envs = store_with_environment(1);
    get_user_profile(&mut profiles, ANONYMOUS.to_string());
    get_user_profile(&mut profiles, MANAGEMENT.to_string());
    let env = set_user_in_environment(&mut profiles, &envs, ANONYMOUS.to_string(), 1);
    assert_eq!(env.env_uid, 1);
    assert_eq!(env.env_name, "home");
    let profile = get_user_profile(&mut profiles, ANONYMOUS.to_string());
    assert_eq!(profile.environment_uid, Some(1));
    let other = get_user_profile(&mut profiles, MANAGEMENT.to_string());
    assert_eq!(other.environment_uid, None);
    let env = reset_user_from_environment(&mut profiles, &envs, ANONYMOUS.to_string());
    assert_eq!(env.env_uid, 1);
    let profile = get_user_profile(&mut profiles, ANONYMOUS.to_string());
    assert_eq!(profile.environment_uid, None);
}

#[test]
fn reset_outside_any_environment_is_refused() {
    let mut profiles = ProfileStore::new();
    let envs = store_with_environment(1);
    assert!(matches!(
        try_reset_user_from_environment(&mut profiles, &envs, ANONYMOUS.to_string()),
        Err(ProfileError::ProfileNotFound)
    ));
    get_user_profile(&mut profiles, ANONYMOUS.to_string());
    assert!(matches!(
        try_reset_user_from_environment(&mut profiles, &envs, ANONYMOUS.to_string()),
        Err(ProfileError::NotInEnvironment)
    ));
}

#[test]
fn reset_from_vanished_environment_is_refused() {
    let mut profiles = ProfileStore::new();
    let envs = store_with_environment(1);
    get_user_profile(&mut profiles, ANONYMOUS.to_string());
    set_user_in_environment(&mut profiles, &envs, ANONYMOUS.to_string(), 1);
    let other_envs = store_with_environment(2);
    assert!(matches!(
        try_reset_user_from_environment(&mut profiles, &other_envs, ANONYMOUS.to_string()),
        Err(ProfileError::EnvironmentNotFound)
    ));
    let profile = get_user_profile(&mut profiles, ANONYMOUS.to_string());
    assert_eq!(profile.environment_uid, Some(1));
}

#[test]
fn principal_bytes_of_the_anonymous_principal() {
    assert_eq!(user_principal_bytes(ANONYMOUS), Some(vec![4]));
    assert_eq!(user_principal_bytes(MANAGEMENT), Some(vec![]));
    assert_eq!(user_principal_bytes("nope"), None);
}
