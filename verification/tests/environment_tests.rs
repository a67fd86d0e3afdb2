use omnia::environment::{
    create_new_environment, get_environment_info_by_uid, insert_new_environment, register_entity,
    register_entity_with_uid, registration_refusal_of, EnvironmentStore, RegistrationError,
    UID_RANGE,
};
use omnia::interface_types::{
    DeviceRegistrationInput, EntityRegistrationInput, EntityRegistrationResult,
    EnvironmentCreationInput, GatewayRegistrationInput,
};
use omnia::store_types::EnvironmentInfo;
use std::collections::BTreeMap;

fn gateway_request(env_uid: u32, name: &str) -> EntityRegistrationInput {
    EntityRegistrationInput::Gateway(GatewayRegistrationInput {
        env_uid,
        gateway_name: name.to_string(),
    })
}

fn device_request(env_uid: u32, gateway_uid: u32, name: &str) -> EntityRegistrationInput {
    EntityRegistrationInput::Device(DeviceRegistrationInput {
        env_uid,
        gateway_uid,
        device_name: name.to_string(),
    })
}

fn empty_environment(uid: u32) -> EnvironmentInfo {
    EnvironmentInfo {
        env_name: "home".to_string(),
        env_uid: uid,
        env_gateways: BTreeMap::new(),
        env_manager_principal_id: "manager".to_string(),
    }
}

#[test]
fn environment_uid_of_gateway_request() {
    assert_eq!(gateway_request(7, "hub").getEnvironmentUID(), 7);
}

#[test]
fn environment_uid_of_device_request() {
    assert_eq!(device_request(9, 3, "lamp").getEnvironmentUID(), 9);
}

#[test]
fn update_files_a_gateway_without_devices() {
    let mut env = empty_environment(1);
    let result = env.update(gateway_request(1, "hub"), 42);
    match result {
        EntityRegistrationResult::Gateway(g) => {
            assert_eq!(g.gateway_name, "hub");
            assert_eq!(g.gateway_uid, 42);
        }
        EntityRegistrationResult::Device(_) => panic!("expected a gateway reply"),
    }
    let gateway = env.env_gateways.get(&42).expect("gateway filed");
    assert_eq!(gateway.gateway_name, "hub");
    assert_eq!(gateway.gateway_uid, 42);
    assert!(gateway.devices.is_empty());
    assert_eq!(env.env_gateways.len(), 1);
}

#[test]
fn update_attaches_a_device_to_its_gateway() {
    let mut env = empty_environment(1);
    env.update(gateway_request(1, "hub"), 42);
    env.update(gateway_request(1, "other hub"), 43);
    let result = env.update(device_request(1, 42, "lamp"), 5);
    match result {
        EntityRegistrationResult::Device(d) => {
            assert_eq!(d.device_name, "lamp");
            assert_eq!(d.device_uid, 5);
        }
        EntityRegistrationResult::Gateway(_) => panic!("expected a device reply"),
    }
    let gateway = env.env_gateways.get(&42).unwrap();
    assert_eq!(gateway.gateway_name, "hub");
    assert_eq!(gateway.devices.len(), 1);
    assert_eq!(gateway.devices.get(&5).unwrap().device_name, "lamp");
    assert!(env.env_gateways.get(&43).unwrap().devices.is_empty());
}

#[test]
fn update_replaces_a_gateway_with_the_same_uid() {
    let mut env = empty_environment(1);
    env.update(gateway_request(1, "hub"), 42);
    env.update(device_request(1, 42, "lamp"), 5);
    env.update(gateway_request(1, "new hub"), 42);
    let gateway = env.env_gateways.get(&42).unwrap();
    assert_eq!(gateway.gateway_name, "new hub");
    assert!(gateway.devices.is_empty());
}

#[test]
fn created_environment_reads_back() {
    let mut store = EnvironmentStore::new();
    let created = create_new_environment(
        &mut store,
        "manager-principal".to_string(),
        EnvironmentCreationInput { env_name: "living room".to_string() },
    );
    assert_eq!(created.env_name, "living room");
    assert!(created.env_uid < UID_RANGE);
    let info = get_environment_info_by_uid(&store, &created.env_uid).expect("created");
    assert_eq!(info.env_name, "living room");
    assert_eq!(info.env_uid, created.env_uid);
    assert_eq!(info.env_manager_principal_id, "manager-principal");
    assert!(info.env_gateways.is_empty());
}

#[test]
fn missing_environment_reads_as_none() {
    let store = EnvironmentStore::new();
    assert!(get_environment_info_by_uid(&store, &3).is_none());
}

#[test]
fn insert_new_environment_uses_the_given_uid() {
    let mut store = EnvironmentStore::new();
    let created = insert_new_environment(
        &mut store,
        "m".to_string(),
        EnvironmentCreationInput { env_name: "garage".to_string() },
        17,
    );
    assert_eq!(created.env_uid, 17);
    assert_eq!(created.env_name, "garage");
    assert!(get_environment_info_by_uid(&store, &17).is_some());
    assert!(get_environment_info_by_uid(&store, &18).is_none());
}

#[test]
fn registration_in_a_missing_environment_is_refused() {
    let mut store = EnvironmentStore::new();
    let refusal = registration_refusal_of(&store, &gateway_request(4, "hub"));
    assert!(matches!(refusal, Some(RegistrationError::EnvironmentNotFound)));
    assert!(get_environment_info_by_uid(&store, &4).is_none());
}

#[test]
fn device_on_a_missing_gateway_is_refused() {
    let mut store = EnvironmentStore::new();
    insert_new_environment(
        &mut store,
        "m".to_string(),
        EnvironmentCreationInput { env_name: "garage".to_string() },
        4,
    );
    let refusal = registration_refusal_of(&store, &device_request(4, 8, "lamp"));
    assert!(matches!(refusal, Some(RegistrationError::GatewayNotFound)));
    assert!(registration_refusal_of(&store, &gateway_request(4, "hub")).is_none());
    assert!(get_environment_info_by_uid(&store, &4).unwrap().env_gateways.is_empty());
}

#[test]
fn gateway_then_device_registration() {
    let mut store = EnvironmentStore::new();
    insert_new_environment(
        &mut store,
        "m".to_string(),
        EnvironmentCreationInput { env_name: "garage".to_string() },
        4,
    );
    insert_new_environment(
        &mut store,
        "m".to_string(),
        EnvironmentCreationInput { env_name: "attic".to_string() },
        5,
    );
    let gateway = register_entity_with_uid(&mut store, gateway_request(4, "hub"), 11);
    assert!(matches!(gateway, EntityRegistrationResult::Gateway(ref g) if g.gateway_uid == 11));
    let device = register_entity_with_uid(&mut store, device_request(4, 11, "lamp"), 12);
    assert!(matches!(device, EntityRegistrationResult::Device(ref d) if d.device_uid == 12 && d.device_name == "lamp"));
    let env = get_environment_info_by_uid(&store, &4).unwrap();
    let hub = env.env_gateways.get(&11).unwrap();
    assert_eq!(hub.devices.get(&12).unwrap().device_name, "lamp");
    assert!(get_environment_info_by_uid(&store, &5).unwrap().env_gateways.is_empty());
}

#[test]
fn random_registration_stays_in_range() {
    let mut store = EnvironmentStore::new();
    insert_new_environment(
        &mut store,
        "m".to_string(),
        EnvironmentCreationInput { env_name: "garage".to_string() },
        4,
    );
    let result = register_entity(&mut store, "p".to_string(), gateway_request(4, "hub"));
    let uid = match result {
        EntityRegistrationResult::Gateway(g) => g.gateway_uid,
        EntityRegistrationResult::Device(d) => d.device_uid,
    };
    assert!(uid < UID_RANGE);
    let env = get_environment_info_by_uid(&store, &4).unwrap();
    assert_eq!(env.env_gateways.get(&uid).unwrap().gateway_name, "hub");
    let refused = registration_refusal_of(&store, &device_request(4, UID_RANGE, "x"));
    assert!(matches!(refused, Some(RegistrationError::GatewayNotFound)));
}
