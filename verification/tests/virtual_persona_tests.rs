use omnia::virtual_persona::{
    decide_virtual_persona, user_environment_step, UserEnvironmentAction, UserEnvironmentChange,
    UserEnvironmentRequest, UserEnvironmentStage, VirtualPersonaStep, VirtualPersonaValue,
};

fn request(change: UserEnvironmentChange) -> UserEnvironmentRequest {
    UserEnvironmentRequest {
        change,
        virtual_persona_principal_id: "2vxsx-fae".to_string(),
        nonce: "n-1".to_string(),
    }
}

fn persona(ip: &str, env: Option<&str>) -> VirtualPersonaValue {
    VirtualPersonaValue {
        virtual_persona_principal_id: "2vxsx-fae".to_string(),
        virtual_persona_ip: ip.to_string(),
        user_env_uid: env.map(|e| e.to_string()),
        manager_env_uid: None,
    }
}

#[test]
fn refused_challenge_is_the_reply() {
    let step = decide_virtual_persona(Err("bad nonce".to_string()), None, "p".to_string());
    assert!(matches!(step, VirtualPersonaStep::Reply(Err(ref e)) if e == "bad nonce"));
}

#[test]
fn existing_persona_is_returned_unchanged() {
    let step = decide_virtual_persona(
        Ok("10.0.0.2".to_string()),
        Some(persona("10.0.0.1", Some("env"))),
        "2vxsx-fae".to_string(),
    );
    match step {
        VirtualPersonaStep::Reply(Ok(p)) => {
            assert_eq!(p.virtual_persona_ip, "10.0.0.1");
            assert_eq!(p.user_env_uid.as_deref(), Some("env"));
        }
        _ => panic!("expected the stored persona"),
    }
}

#[test]
fn missing_persona_is_created_at_the_requester_ip() {
    let step = decide_virtual_persona(Ok("10.0.0.2".to_string()), None, "abc".to_string());
    match step {
        VirtualPersonaStep::Create(p) => {
            assert_eq!(p.virtual_persona_principal_id, "abc");
            assert_eq!(p.virtual_persona_ip, "10.0.0.2");
            assert!(p.user_env_uid.is_none());
            assert!(p.manager_env_uid.is_none());
        }
        _ => panic!("expected a new persona"),
    }
}

fn ok(s: &str) -> Result<String, String> {
    Ok(s.to_string())
}

#[test]
fn entering_an_environment_adds_the_user() {
    let r = request(UserEnvironmentChange::Enter);
    let (stage, action) = user_environment_step(&r, UserEnvironmentStage::Start, ok(""));
    assert!(matches!(action, UserEnvironmentAction::ValidateChallenge { ref nonce } if nonce == "n-1"));
    let (stage, action) = user_environment_step(&r, stage, ok("10.0.0.2"));
    assert!(matches!(action, UserEnvironmentAction::ReadEnvironmentUid { ref requester_ip } if requester_ip == "10.0.0.2"));
    let (stage, action) = user_environment_step(&r, stage, ok("env-7"));
    assert!(matches!(action, UserEnvironmentAction::InsertUserInEnvironment { ref env_uid, ref principal_id } if env_uid == "env-7" && principal_id == "2vxsx-fae"));
    let (stage, action) = user_environment_step(&r, stage, ok(""));
    assert!(matches!(action, UserEnvironmentAction::InsertEnvironmentInPersona { ref env_uid, ref principal_id } if env_uid == "env-7" && principal_id == "2vxsx-fae"));
    let (stage, action) = user_environment_step(&r, stage, ok(""));
    assert!(matches!(action, UserEnvironmentAction::Reply(Ok(ref uid)) if uid == "env-7"));
    assert!(matches!(stage, UserEnvironmentStage::Start));
}

#[test]
fn leaving_an_environment_removes_the_user() {
    let r = request(UserEnvironmentChange::Leave);
    let (stage, _) = user_environment_step(&r, UserEnvironmentStage::Start, ok(""));
    let (stage, _) = user_environment_step(&r, stage, ok("10.0.0.2"));
    let (stage, action) = user_environment_step(&r, stage, ok("env-7"));
    assert!(matches!(action, UserEnvironmentAction::RemoveUserFromEnvironment { ref env_uid, ref principal_id } if env_uid == "env-7" && principal_id == "2vxsx-fae"));
    let (stage, action) = user_environment_step(&r, stage, ok(""));
    assert!(matches!(action, UserEnvironmentAction::RemoveEnvironmentFromPersona { ref principal_id } if principal_id == "2vxsx-fae"));
    let (_, action) = user_environment_step(&r, stage, ok(""));
    assert!(matches!(action, UserEnvironmentAction::Reply(Ok(ref uid)) if uid == "env-7"));
}

#[test]
fn user_environment_flow_stops_at_the_first_refusal() {
    let r = request(UserEnvironmentChange::Enter);
    let (stage, _) = user_environment_step(&r, UserEnvironmentStage::Start, ok(""));
    let (stage, _) = user_environment_step(&r, stage, ok("10.0.0.2"));
    let (stage, action) = user_environment_step(&r, stage, Err("no environment at this IP".to_string()));
    assert!(matches!(action, UserEnvironmentAction::Reply(Err(ref e)) if e == "no environment at this IP"));
    assert!(matches!(stage, UserEnvironmentStage::Start));
}

#[test]
fn refused_persona_update_is_the_reply() {
    let r = request(UserEnvironmentChange::Leave);
    let stage = UserEnvironmentStage::AwaitingPersonaUpdate { env_uid: "env-7".to_string() };
    let (_, action) = user_environment_step(&r, stage, Err("no persona".to_string()));
    assert!(matches!(action, UserEnvironmentAction::Reply(Err(ref e)) if e == "no persona"));
}
