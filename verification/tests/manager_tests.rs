use omnia::device::RegisteredDeviceIndex;
use omnia::interface_types::EnvironmentCreationInput;
use omnia::manager::{
    decide_environment_creation, parse_device_certificate, start_environment_creation,
    EnvironmentCreationStep,
};

fn input() -> EnvironmentCreationInput {
    EnvironmentCreationInput { env_name: "home".to_string() }
}

#[test]
fn creation_goes_ahead_with_a_persona() {
    let step = decide_environment_creation(true, "abc".to_string(), input());
    assert_eq!(step.database_method(), Some("createNewEnvironment"));
    match step {
        EnvironmentCreationStep::RequestCreation {
            environment_manager_principal_id,
            environment_creation_input,
        } => {
            assert_eq!(environment_manager_principal_id, "abc");
            assert_eq!(environment_creation_input.env_name, "home");
        }
        _ => panic!("expected a creation request"),
    }
}

#[test]
fn creation_is_refused_without_a_persona() {
    match decide_environment_creation(false, "2vxsx-fae".to_string(), input()) {
        EnvironmentCreationStep::Reject(message) => assert_eq!(
            message,
            "Virtual persona with principal id: \"2vxsx-fae\" does not exist"
        ),
        _ => panic!("expected a refusal"),
    }
}

#[test]
fn refusal_message_quotes_the_principal() {
    match decide_environment_creation(false, "a\"b".to_string(), input()) {
        EnvironmentCreationStep::Reject(message) => assert_eq!(
            message,
            "Virtual persona with principal id: \"a\\\"b\" does not exist"
        ),
        _ => panic!("expected a refusal"),
    }
}

#[test]
fn device_certificate_is_described() {
    let report = parse_device_certificate().expect("the PEM block decodes");
    assert!(report.starts_with("\nX509 certificate: Ok("));
}

#[test]
fn creation_starts_by_asking_for_the_persona() {
    let step = start_environment_creation("abc".to_string());
    assert_eq!(step.database_method(), Some("checkIfVirtualPersonaExists"));
    assert!(matches!(step, EnvironmentCreationStep::CheckVirtualPersona { ref principal_id } if principal_id == "abc"));
}

#[test]
fn refusal_calls_no_database_method() {
    let step = decide_environment_creation(false, "abc".to_string(), input());
    assert_eq!(step.database_method(), None);
}

#[test]
fn registered_devices_are_ordered_by_uid() {
    let a = RegisteredDeviceIndex { device_uid: "a".to_string() };
    let b = RegisteredDeviceIndex { device_uid: "b".to_string() };
    assert!(a < b);
    assert_eq!(a.clone(), a);
}
