//! Decisions of the database's virtual-persona requests. The stores they
//! consult (IP challenges, environment uids by IP, environments and
//! personas) are the database's; these functions take what the stores
//! answered and say what is done next.
use vstd::prelude::*;

verus! {

/// Message of a refused store call.
pub type GenericError = String;

/// A user's virtual persona: its principal, the IP it was first seen at,
/// and the environments it is a user and a manager of, if any.
#[derive(Clone, Debug)]
pub struct VirtualPersonaValue {
    pub virtual_persona_principal_id: String,
    pub virtual_persona_ip: String,
    pub user_env_uid: Option<String>,
    pub manager_env_uid: Option<String>,
}

/// What a request for a user's virtual persona leads to.
pub enum VirtualPersonaStep {
    /// Reply with this, storing nothing.
    Reply(Result<VirtualPersonaValue, GenericError>),
    /// Store this new persona, then reply with it.
    Create(VirtualPersonaValue),
}

/// What a request for the virtual persona of `virtual_persona_principal_id`
/// leads to, given what the IP challenge's check answered (the requester's
/// IP, or the refusal) and the persona already stored for that principal,
/// if any: a refused challenge is the reply; an existing persona is returned
/// as it is; otherwise a new persona with that principal, the requester's IP
/// and no environments is created and returned.
pub open spec fn virtual_persona_decision(
    challenge: Result<String, GenericError>,
    existing: Option<VirtualPersonaValue>,
    virtual_persona_principal_id: String,
) -> VirtualPersonaStep {
    match challenge {
        Err(e) => VirtualPersonaStep::Reply(Err(e)),
        Ok(requester_ip) => match existing {
            Some(persona) => VirtualPersonaStep::Reply(Ok(persona)),
            None => VirtualPersonaStep::Create(
                VirtualPersonaValue {
                    virtual_persona_principal_id,
                    virtual_persona_ip: requester_ip,
                    user_env_uid: None,
                    manager_env_uid: None,
                },
            ),
        },
    }
}

/// Decides a request for the virtual persona of
/// `virtual_persona_principal_id` (see `virtual_persona_decision`).
pub fn decide_virtual_persona(
    challenge: Result<String, GenericError>,
    existing: Option<VirtualPersonaValue>,
    virtual_persona_principal_id: String,
) -> (step: VirtualPersonaStep)
    ensures
        step == virtual_persona_decision(challenge, existing, virtual_persona_principal_id),
{
    match challenge {
        Err(e) => VirtualPersonaStep::Reply(Err(e)),
        Ok(requester_ip) => match existing {
            Some(existing_virtual_persona_value) => VirtualPersonaStep::Reply(
                Ok(existing_virtual_persona_value),
            ),
            None => VirtualPersonaStep::Create(
                VirtualPersonaValue {
                    virtual_persona_principal_id,
                    virtual_persona_ip: requester_ip,
                    user_env_uid: None,
                    manager_env_uid: None,
                },
            ),
        },
    }
}

/// The persona a request for a virtual persona ends up replying with, if
/// it succeeds: the stored one, or the one it creates.
pub open spec fn persona_of_step(step: VirtualPersonaStep) -> Option<VirtualPersonaValue> {
    match step {
        VirtualPersonaStep::Reply(Ok(persona)) => Some(persona),
        VirtualPersonaStep::Reply(Err(_)) => None,
        VirtualPersonaStep::Create(persona) => Some(persona),
    }
}

/// Reading a virtual persona twice gives the same persona: once a request
/// has replied with a persona, and the store holds that persona for the
/// principal (a created one having been stored), a later request for the
/// same principal with a valid challenge, from any IP, returns it as it is
/// and creates nothing.
pub proof fn lemma_virtual_persona_read_is_stable(
    first_challenge: Result<String, GenericError>,
    existing: Option<VirtualPersonaValue>,
    virtual_persona_principal_id: String,
    second_requester_ip: String,
)
    requires
        persona_of_step(virtual_persona_decision(first_challenge, existing, virtual_persona_principal_id))
            is Some,
    ensures
        ({
            let persona = persona_of_step(
                virtual_persona_decision(first_challenge, existing, virtual_persona_principal_id),
            )->0;
            virtual_persona_decision(
                Ok(second_requester_ip),
                Some(persona),
                virtual_persona_principal_id,
            ) == VirtualPersonaStep::Reply(Ok(persona))
        }),
{
}

/// Whether a request puts the user in its environment or takes it out.
#[derive(Clone, Copy, PartialEq, Eq, Structural)]
pub enum UserEnvironmentChange {
    Enter,
    Leave,
}

/// A request that puts a user in the environment kept for the requester's
/// IP, or takes it out of it.
pub struct UserEnvironmentRequest {
    pub change: UserEnvironmentChange,
    pub virtual_persona_principal_id: String,
    pub nonce: String,
}

/// Where such a request stands: which store call it waits for.
pub enum UserEnvironmentStage {
    /// No call made yet.
    Start,
    /// Waiting for the IP challenge's check (answer: the requester's IP).
    AwaitingChallenge,
    /// Waiting for the environment uid kept for the requester's IP.
    AwaitingEnvironmentUid,
    /// Waiting for the environment store's change.
    AwaitingEnvironmentUpdate { env_uid: String },
    /// Waiting for the persona store's change.
    AwaitingPersonaUpdate { env_uid: String },
}

/// What the database does next in such a request.
pub enum UserEnvironmentAction {
    /// Check the IP challenge with this nonce.
    ValidateChallenge { nonce: String },
    /// Read the environment uid kept for this IP.
    ReadEnvironmentUid { requester_ip: String },
    /// Add this user to the users of this environment.
    InsertUserInEnvironment { env_uid: String, principal_id: String },
    /// Remove this user from the users of this environment.
    RemoveUserFromEnvironment { env_uid: String, principal_id: String },
    /// Record this environment in this user's persona.
    InsertEnvironmentInPersona { principal_id: String, env_uid: String },
    /// Clear the environment of this user's persona.
    RemoveEnvironmentFromPersona { principal_id: String },
    /// Reply: the uid of the environment, or the first refusal.
    Reply(Result<String, GenericError>),
}

/// The environment store's change that a request asks for.
pub open spec fn environment_update(request: UserEnvironmentRequest, env_uid: String) -> UserEnvironmentAction {
    match request.change {
        UserEnvironmentChange::Enter => UserEnvironmentAction::InsertUserInEnvironment {
            env_uid,
            principal_id: request.virtual_persona_principal_id,
        },
        UserEnvironmentChange::Leave => UserEnvironmentAction::RemoveUserFromEnvironment {
            env_uid,
            principal_id: request.virtual_persona_principal_id,
        },
    }
}

/// The persona store's change that a request asks for.
pub open spec fn persona_update(request: UserEnvironmentRequest, env_uid: String) -> UserEnvironmentAction {
    match request.change {
        UserEnvironmentChange::Enter => UserEnvironmentAction::InsertEnvironmentInPersona {
            principal_id: request.virtual_persona_principal_id,
            env_uid,
        },
        UserEnvironmentChange::Leave => UserEnvironmentAction::RemoveEnvironmentFromPersona {
            principal_id: request.virtual_persona_principal_id,
        },
    }
}

/// The transition table of such a request: the challenge is checked with
/// the request's nonce, the environment uid is read for the IP it gave,
/// then the environment store and the persona store are changed for the
/// request's user and that uid (the user added and the environment
/// recorded for `Enter`, both removed for `Leave`); the first refusal is
/// the reply, and once all four calls have succeeded the uid that was read
/// is. After a reply the request is back at `Start`.
pub open spec fn user_environment_next(
    request: UserEnvironmentRequest,
    stage: UserEnvironmentStage,
    answer: Result<String, GenericError>,
) -> (UserEnvironmentStage, UserEnvironmentAction) {
    match stage {
        UserEnvironmentStage::Start => (
            UserEnvironmentStage::AwaitingChallenge,
            UserEnvironmentAction::ValidateChallenge { nonce: request.nonce },
        ),
        UserEnvironmentStage::AwaitingChallenge => match answer {
            Err(e) => (UserEnvironmentStage::Start, UserEnvironmentAction::Reply(Err(e))),
            Ok(requester_ip) => (
                UserEnvironmentStage::AwaitingEnvironmentUid,
                UserEnvironmentAction::ReadEnvironmentUid { requester_ip },
            ),
        },
        UserEnvironmentStage::AwaitingEnvironmentUid => match answer {
            Err(e) => (UserEnvironmentStage::Start, UserEnvironmentAction::Reply(Err(e))),
            Ok(env_uid) => (
                UserEnvironmentStage::AwaitingEnvironmentUpdate { env_uid },
                environment_update(request, env_uid),
            ),
        },
        UserEnvironmentStage::AwaitingEnvironmentUpdate { env_uid } => match answer {
            Err(e) => (UserEnvironmentStage::Start, UserEnvironmentAction::Reply(Err(e))),
            Ok(_) => (
                UserEnvironmentStage::AwaitingPersonaUpdate { env_uid },
                persona_update(request, env_uid),
            ),
        },
        UserEnvironmentStage::AwaitingPersonaUpdate { env_uid } => match answer {
            Err(e) => (UserEnvironmentStage::Start, UserEnvironmentAction::Reply(Err(e))),
            Ok(_) => (UserEnvironmentStage::Start, UserEnvironmentAction::Reply(Ok(env_uid))),
        },
    }
}

/// The environment store's change for `request` and `env_uid`.
fn environment_update_action(request: &UserEnvironmentRequest, env_uid: String) -> (action: UserEnvironmentAction)
    ensures
        action == environment_update(*request, env_uid),
{
    let principal_id = request.virtual_persona_principal_id.clone();
    match request.change {
        UserEnvironmentChange::Enter => UserEnvironmentAction::InsertUserInEnvironment { env_uid, principal_id },
        UserEnvironmentChange::Leave => UserEnvironmentAction::RemoveUserFromEnvironment { env_uid, principal_id },
    }
}

/// The persona store's change for `request` and `env_uid`.
fn persona_update_action(request: &UserEnvironmentRequest, env_uid: String) -> (action: UserEnvironmentAction)
    ensures
        action == persona_update(*request, env_uid),
{
    let principal_id = request.virtual_persona_principal_id.clone();
    match request.change {
        UserEnvironmentChange::Enter => UserEnvironmentAction::InsertEnvironmentInPersona { principal_id, env_uid },
        UserEnvironmentChange::Leave => UserEnvironmentAction::RemoveEnvironmentFromPersona { principal_id },
    }
}

/// Takes one step of `request`: given where it stands and what the last
/// store call answered (ignored at `Start`), returns where it stands next
/// and what to do (see `user_environment_next`).
pub fn user_environment_step(
    request: &UserEnvironmentRequest,
    stage: UserEnvironmentStage,
    answer: Result<String, GenericError>,
) -> (next: (UserEnvironmentStage, UserEnvironmentAction))
    ensures
        next == user_environment_next(*request, stage, answer),
{
    match stage {
        UserEnvironmentStage::Start => (
            UserEnvironmentStage::AwaitingChallenge,
            UserEnvironmentAction::ValidateChallenge { nonce: request.nonce.clone() },
        ),
        UserEnvironmentStage::AwaitingChallenge => match answer {
            Err(e) => (UserEnvironmentStage::Start, UserEnvironmentAction::Reply(Err(e))),
            Ok(requester_ip) => (
                UserEnvironmentStage::AwaitingEnvironmentUid,
                UserEnvironmentAction::ReadEnvironmentUid { requester_ip },
            ),
        },
        UserEnvironmentStage::AwaitingEnvironmentUid => match answer {
            Err(e) => (UserEnvironmentStage::Start, UserEnvironmentAction::Reply(Err(e))),
            Ok(env_uid) => {
                let action = environment_update_action(request, env_uid.clone());
                (UserEnvironmentStage::AwaitingEnvironmentUpdate { env_uid }, action)
            },
        },
        UserEnvironmentStage::AwaitingEnvironmentUpdate { env_uid } => match answer {
            Err(e) => (UserEnvironmentStage::Start, UserEnvironmentAction::Reply(Err(e))),
            Ok(_) => {
                let action = persona_update_action(request, env_uid.clone());
                (UserEnvironmentStage::AwaitingPersonaUpdate { env_uid }, action)
            },
        },
        UserEnvironmentStage::AwaitingPersonaUpdate { env_uid } => match answer {
            Err(e) => (UserEnvironmentStage::Start, UserEnvironmentAction::Reply(Err(e))),
            Ok(_) => (UserEnvironmentStage::Start, UserEnvironmentAction::Reply(Ok(env_uid))),
        },
    }
}

/// The reply of such a request, given the answers of its four store calls
/// in order: the first refusal, or the environment uid that was read.
pub open spec fn user_environment_outcome(
    challenge: Result<String, GenericError>,
    env_uid_read: Result<String, GenericError>,
    environment_update: Result<String, GenericError>,
    persona_update: Result<String, GenericError>,
) -> Result<String, GenericError> {
    match challenge {
        Err(e) => Err(e),
        Ok(_) => match env_uid_read {
            Err(e) => Err(e),
            Ok(env_uid) => match environment_update {
                Err(e) => Err(e),
                Ok(_) => match persona_update {
                    Err(e) => Err(e),
                    Ok(_) => Ok(env_uid),
                },
            },
        },
    }
}

/// The first reply met when the answers are fed in turn from `stage`, if any.
pub open spec fn first_reply(
    request: UserEnvironmentRequest,
    stage: UserEnvironmentStage,
    answers: Seq<Result<String, GenericError>>,
) -> Option<Result<String, GenericError>>
    decreases answers.len(),
{
    if answers.len() == 0 {
        None
    } else {
        let (next, action) = user_environment_next(request, stage, answers[0]);
        match action {
            UserEnvironmentAction::Reply(reply) => Some(reply),
            _ => first_reply(request, next, answers.drop_first()),
        }
    }
}

/// A request started afresh replies, at the latest after its four store
/// calls, with the first refusal or with the environment uid read for the
/// requester's IP; each store call is made with what the previous one
/// answered: the challenge with the request's nonce, the read for the IP
/// the challenge gave, and both changes for the request's user and the uid
/// that was read, adding for `Enter` and removing for `Leave`.
pub proof fn lemma_user_environment_flow(
    request: UserEnvironmentRequest,
    ignored: Result<String, GenericError>,
    challenge: Result<String, GenericError>,
    env_uid_read: Result<String, GenericError>,
    environment_answer: Result<String, GenericError>,
    persona_answer: Result<String, GenericError>,
)
    ensures
        first_reply(
            request,
            UserEnvironmentStage::Start,
            seq![ignored, challenge, env_uid_read, environment_answer, persona_answer],
        ) == Some(user_environment_outcome(challenge, env_uid_read, environment_answer, persona_answer)),
        user_environment_next(request, UserEnvironmentStage::Start, ignored).1
            == (UserEnvironmentAction::ValidateChallenge { nonce: request.nonce }),
        challenge matches Ok(ip) ==> user_environment_next(
            request,
            UserEnvironmentStage::AwaitingChallenge,
            challenge,
        ).1 == (UserEnvironmentAction::ReadEnvironmentUid { requester_ip: ip }),
        env_uid_read matches Ok(uid) ==> user_environment_next(
            request,
            UserEnvironmentStage::AwaitingEnvironmentUid,
            env_uid_read,
        ).1 == environment_update(request, uid),
        env_uid_read matches Ok(uid) ==> (environment_answer is Ok ==> user_environment_next(
            request,
            UserEnvironmentStage::AwaitingEnvironmentUpdate { env_uid: uid },
            environment_answer,
        ).1 == persona_update(request, uid)),
{
    let answers = seq![ignored, challenge, env_uid_read, environment_answer, persona_answer];
    let a1 = answers.drop_first();
    let a2 = a1.drop_first();
    let a3 = a2.drop_first();
    let a4 = a3.drop_first();
    let a5 = a4.drop_first();
    assert(a1 =~= seq![challenge, env_uid_read, environment_answer, persona_answer]);
    assert(a2 =~= seq![env_uid_read, environment_answer, persona_answer]);
    assert(a3 =~= seq![environment_answer, persona_answer]);
    assert(a4 =~= seq![persona_answer]);
    assert(a5.len() == 0);
    reveal_with_fuel(first_reply, 6);
}

/// Two requests whose four store calls all succeed, and that read the same
/// environment uid for their requesters' IPs, reply with the same uid,
/// whether they enter or leave: a user set in an environment and then reset
/// from it, with the uid kept for its IP unchanged in between, is told the
/// same environment both times.
pub proof fn lemma_same_uid_read_same_reply(
    first: (Result<String, GenericError>, Result<String, GenericError>, Result<String, GenericError>, Result<String, GenericError>),
    second: (Result<String, GenericError>, Result<String, GenericError>, Result<String, GenericError>, Result<String, GenericError>),
)
    requires
        user_environment_outcome(first.0, first.1, first.2, first.3) is Ok,
        user_environment_outcome(second.0, second.1, second.2, second.3) is Ok,
        first.1 == second.1,
    ensures
        user_environment_outcome(first.0, first.1, first.2, first.3) == user_environment_outcome(
            second.0,
            second.1,
            second.2,
            second.3,
        ),
        user_environment_outcome(first.0, first.1, first.2, first.3) == first.1,
{
}

} // verus!

verus! {

/// With a valid challenge, a stored persona is returned exactly as stored,
/// whatever it holds, and nothing is created.
pub proof fn lemma_stored_persona_returned_as_stored(
    requester_ip: String,
    persona: VirtualPersonaValue,
    virtual_persona_principal_id: String,
)
    ensures
        virtual_persona_decision(Ok(requester_ip), Some(persona), virtual_persona_principal_id)
            == VirtualPersonaStep::Reply(Ok(persona)),
{
}

/// A refused challenge is the reply, whether or not a persona is stored;
/// with a valid challenge and no stored persona, the persona created is the
/// requester's principal at the requester's IP, in no environment.
pub proof fn lemma_persona_refusal_and_creation(
    challenge: Result<String, GenericError>,
    existing: Option<VirtualPersonaValue>,
    virtual_persona_principal_id: String,
)
    ensures
        challenge matches Err(e) ==> virtual_persona_decision(
            challenge,
            existing,
            virtual_persona_principal_id,
        ) == VirtualPersonaStep::Reply(Err(e)),
        challenge matches Ok(ip) ==> (existing is None ==> (virtual_persona_decision(
            challenge,
            existing,
            virtual_persona_principal_id,
        ) matches VirtualPersonaStep::Create(p) && p.virtual_persona_principal_id
            == virtual_persona_principal_id && p.virtual_persona_ip == ip && p.user_env_uid is None
            && p.manager_env_uid is None)),
{
}

} // verus!
