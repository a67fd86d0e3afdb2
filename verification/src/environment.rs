//! The store of environments: creating an environment, registering
//! gateways and devices in it, and reading it back.
use rand::Rng;
use std::collections::BTreeMap;
use vstd::prelude::*;

use crate::interface_types::{
    EntityRegistrationInput, EntityRegistrationResult, EnvironmentCreationInput,
    EnvironmentCreationResult, EnvironmentUID,
};
use crate::store_types::{EnvironmentInfo, EnvironmentModel, GatewayModel};

verus! {

/// New environments and entities get a uid drawn below this bound.
pub const UID_RANGE: u32 = 100;

/// Draws a uid uniformly from `0..bound` with `rand::thread_rng().gen_range`.
/// Trusted: what is known of the result is only that it lies in the range,
/// as `gen_range` documents (it panics on an empty range, hence the
/// `requires`).
#[verifier::external_body]
fn random_uid_below(bound: u32) -> (uid: u32)
    requires
        bound > 0,
    ensures
        uid < bound,
{
    rand::thread_rng().gen_range(0..bound)
}

/// Why a registration request was refused.
#[derive(Debug, Clone, Copy, PartialEq, Eq, Structural)]
pub enum RegistrationError {
    /// The request names an environment that is not in the store.
    EnvironmentNotFound,
    /// A device request names a gateway that is not in its environment.
    GatewayNotFound,
}

/// A freshly created environment: no gateways yet.
pub open spec fn new_environment(name: Seq<char>, uid: u32, manager: Seq<char>) -> EnvironmentModel {
    EnvironmentModel { name, uid, gateways: Map::empty(), manager }
}

/// Every environment is filed under its own uid, and is itself well formed.
pub open spec fn store_well_formed(m: Map<u32, EnvironmentModel>) -> bool {
    forall|k: u32| #[trigger]
        m.contains_key(k) ==> m[k].uid == k && m[k].well_formed()
}

/// The refusal owed to `entity` by a store whose model is `m`, if any.
pub open spec fn registration_refusal(
    m: Map<u32, EnvironmentModel>,
    entity: EntityRegistrationInput,
) -> Option<RegistrationError> {
    if !m.contains_key(entity.target_environment()) {
        Some(RegistrationError::EnvironmentNotFound)
    } else if !m[entity.target_environment()].accepts(entity) {
        Some(RegistrationError::GatewayNotFound)
    } else {
        None
    }
}

/// The store once `entity` is registered under `uid` in its environment.
pub open spec fn store_registered(
    m: Map<u32, EnvironmentModel>,
    entity: EntityRegistrationInput,
    uid: u32,
) -> Map<u32, EnvironmentModel> {
    m.insert(
        entity.target_environment(),
        m[entity.target_environment()].registered(entity, uid),
    )
}

/// The environments of the database, keyed by environment uid.
pub struct EnvironmentStore {
    environments: BTreeMap<EnvironmentUID, EnvironmentInfo>,
}

impl View for EnvironmentStore {
    type V = Map<u32, EnvironmentModel>;

    closed spec fn view(&self) -> Map<u32, EnvironmentModel> {
        self.environments@.map_values(|e: EnvironmentInfo| e@)
    }
}

impl EnvironmentStore {
    #[verifier::type_invariant]
    spec fn filed_by_uid(self) -> bool {
        store_well_formed(self@)
    }

    /// An empty store.
    pub fn new() -> (store: EnvironmentStore)
        ensures
            store@ == Map::<u32, EnvironmentModel>::empty(),
    {
        let store = EnvironmentStore { environments: BTreeMap::new() };
        assert(store@ =~= Map::<u32, EnvironmentModel>::empty());
        store
    }

}

/// Returns a copy of the environment filed under `environment_uid`, or
/// `None` when there is none.
pub fn get_environment_info_by_uid(
    store: &EnvironmentStore,
    environment_uid: &EnvironmentUID,
) -> (result: Option<EnvironmentInfo>)
    ensures
        match result {
            Some(info) => store@.contains_key(*environment_uid) && info@ == store@[*environment_uid],
            None => !store@.contains_key(*environment_uid),
        },
        store_well_formed(store@),
{
    proof {
        use_type_invariant(store);
    }
    match store.environments.get(environment_uid) {
        Some(info) => Some(info.copy()),
        None => None,
    }
}

/// Files a new environment, with no gateways, under `environment_uid`
/// (replacing one already filed there) and returns its name and uid.
pub fn insert_new_environment(
    store: &mut EnvironmentStore,
    environment_manager_principal_id: String,
    environment_creation_input: EnvironmentCreationInput,
    environment_uid: EnvironmentUID,
) -> (result: EnvironmentCreationResult)
    ensures
        result.env_name@ == environment_creation_input.env_name@,
        result.env_uid == environment_uid,
        final(store)@ == old(store)@.insert(
            environment_uid,
            new_environment(
                environment_creation_input.env_name@,
                environment_uid,
                environment_manager_principal_id@,
            ),
        ),
        store_well_formed(final(store)@),
{
    proof {
        use_type_invariant(&*store);
    }
    let info = EnvironmentInfo {
        env_name: environment_creation_input.env_name.clone(),
        env_uid: environment_uid,
        env_gateways: BTreeMap::new(),
        env_manager_principal_id: environment_manager_principal_id,
    };
    assert(info@.gateways =~= Map::empty());
    let ghost old_view = store@;
    let ghost new_view = old_view.insert(environment_uid, info@);
    let mut environments = BTreeMap::new();
    std::mem::swap(&mut environments, &mut store.environments);
    environments.insert(environment_uid, info);
    assert(environments@.map_values(|e: EnvironmentInfo| e@) =~= new_view);
    assert(store_well_formed(new_view));
    store.environments = environments;
    EnvironmentCreationResult {
        env_name: environment_creation_input.env_name,
        env_uid: environment_uid,
    }
}

/// Creates a new environment managed by `environment_manager_principal_id`
/// under a uid drawn at random below `UID_RANGE`, and returns its name and
/// that uid.
pub fn create_new_environment(
    store: &mut EnvironmentStore,
    environment_manager_principal_id: String,
    environment_creation_input: EnvironmentCreationInput,
) -> (result: EnvironmentCreationResult)
    ensures
        result.env_uid < UID_RANGE,
        result.env_name@ == environment_creation_input.env_name@,
        final(store)@ == old(store)@.insert(
            result.env_uid,
            new_environment(
                environment_creation_input.env_name@,
                result.env_uid,
                environment_manager_principal_id@,
            ),
        ),
        store_well_formed(final(store)@),
{
    let environment_uid = random_uid_below(UID_RANGE);
    insert_new_environment(
        store,
        environment_manager_principal_id,
        environment_creation_input,
        environment_uid,
    )
}

/// Says whether `entity` can be registered in the store, and if not, why:
/// its environment is missing, or, for a device, its gateway is missing from
/// that environment.
pub fn registration_refusal_of(
    store: &EnvironmentStore,
    entity: &EntityRegistrationInput,
) -> (refusal: Option<RegistrationError>)
    ensures
        refusal == registration_refusal(store@, *entity),
{
    let env_uid = entity.getEnvironmentUID();
    match store.environments.get(&env_uid) {
        None => Some(RegistrationError::EnvironmentNotFound),
        Some(environment_info) => {
            assert(store@[env_uid] == environment_info@);
            if let EntityRegistrationInput::Device(device) = entity {
                if !environment_info.env_gateways.contains_key(&device.gateway_uid) {
                    return Some(RegistrationError::GatewayNotFound);
                }
            }
            None
        },
    }
}

/// Registers `entity` under `entity_uid` in the environment it names: a
/// gateway is filed in that environment, a device is attached to the
/// gateway it names. The environment, and a device's gateway, must exist.
pub fn register_entity_with_uid(
    store: &mut EnvironmentStore,
    entity: EntityRegistrationInput,
    entity_uid: u32,
) -> (result: EntityRegistrationResult)
    requires
        registration_refusal(old(store)@, entity) is None,
    ensures
        result@ == entity.outcome(entity_uid),
        final(store)@ == store_registered(old(store)@, entity, entity_uid),
        store_well_formed(final(store)@),
{
    proof {
        use_type_invariant(&*store);
    }
    let env_uid = entity.getEnvironmentUID();
    match get_environment_info_by_uid(store, &env_uid) {
        None => unreached(),
        Some(mut environment_info) => {
            let ghost old_view = store@;
            let entity_registration_result = environment_info.update(entity, entity_uid);
            let ghost new_view = old_view.insert(env_uid, environment_info@);
            let mut environments = BTreeMap::new();
            std::mem::swap(&mut environments, &mut store.environments);
            environments.insert(environment_info.env_uid, environment_info);
            assert(environments@.map_values(|e: EnvironmentInfo| e@) =~= new_view);
            assert(store_well_formed(new_view));
            store.environments = environments;
            entity_registration_result
        },
    }
}

/// Registers `entity` in the environment it names under a uid drawn at
/// random below `UID_RANGE`; the reply carries that uid. The environment,
/// and a device's gateway, must exist.
pub fn register_entity(
    store: &mut EnvironmentStore,
    principal_id: String,
    entity: EntityRegistrationInput,
) -> (result: EntityRegistrationResult)
    requires
        registration_refusal(old(store)@, entity) is None,
    ensures
        result@.uid() < UID_RANGE,
        result@ == entity.outcome(result@.uid()),
        final(store)@ == store_registered(old(store)@, entity, result@.uid()),
        store_well_formed(final(store)@),
{
    let entity_uid = random_uid_below(UID_RANGE);
    register_entity_with_uid(store, entity, entity_uid)
}

} // verus!

verus! {

/// A newly created environment is read back under its uid with the name and
/// manager it was created with and no gateways; every other environment
/// reads back as before.
pub proof fn lemma_created_environment_reads_back(
    before: Map<u32, EnvironmentModel>,
    name: Seq<char>,
    uid: u32,
    manager: Seq<char>,
    other: u32,
)
    ensures
        ({
            let after = before.insert(uid, new_environment(name, uid, manager));
            &&& after.contains_key(uid)
            &&& after[uid].name == name && after[uid].uid == uid && after[uid].manager == manager
            &&& after[uid].gateways.is_empty()
            &&& other != uid ==> after.contains_key(other) == before.contains_key(other)
            &&& other != uid && before.contains_key(other) ==> after[other] == before[other]
        }),
{
    let after = before.insert(uid, new_environment(name, uid, manager));
    assert(after[uid].gateways.dom() =~= Set::empty());
}

/// An accepted registration changes only the environment it names, and in
/// it only the gateway it files or attaches to: other environments and other
/// gateways read back as before.
pub proof fn lemma_registration_changes_only_its_target(
    before: Map<u32, EnvironmentModel>,
    entity: EntityRegistrationInput,
    uid: u32,
    other_environment: u32,
    other_gateway: u32,
)
    requires
        registration_refusal(before, entity) is None,
        other_environment != entity.target_environment(),
        other_gateway != match entity {
            EntityRegistrationInput::Gateway(_) => uid,
            EntityRegistrationInput::Device(device) => device.gateway_uid,
        },
    ensures
        ({
            let after = store_registered(before, entity, uid);
            let target = entity.target_environment();
            &&& after.dom() == before.dom()
            &&& before.contains_key(other_environment) ==> after[other_environment]
                == before[other_environment]
            &&& after[target].name == before[target].name
            &&& after[target].uid == before[target].uid
            &&& after[target].manager == before[target].manager
            &&& after[target].gateways.contains_key(other_gateway) == before[target].gateways.contains_key(
                other_gateway,
            )
            &&& before[target].gateways.contains_key(other_gateway) ==> after[target].gateways[other_gateway]
                == before[target].gateways[other_gateway]
        }),
{
    let after = store_registered(before, entity, uid);
    assert(after.dom() =~= before.dom());
}

/// A registered gateway is found under its uid, with its name and no
/// devices; a registered device is found under its uid, with its name, in
/// the gateway it named, and that gateway keeps its name and uid.
pub proof fn lemma_registered_entity_is_found(
    before: Map<u32, EnvironmentModel>,
    entity: EntityRegistrationInput,
    uid: u32,
)
    requires
        registration_refusal(before, entity) is None,
    ensures
        ({
            let after = store_registered(before, entity, uid);
            let env = after[entity.target_environment()];
            match entity {
                EntityRegistrationInput::Gateway(gateway) => {
                    &&& env.gateways.contains_key(uid)
                    &&& env.gateways[uid].name == gateway.gateway_name@
                    &&& env.gateways[uid].uid == uid
                    &&& env.gateways[uid].devices.is_empty()
                },
                EntityRegistrationInput::Device(device) => {
                    let old_gateway = before[entity.target_environment()].gateways[device.gateway_uid];
                    &&& env.gateways.contains_key(device.gateway_uid)
                    &&& env.gateways[device.gateway_uid].devices.contains_key(uid)
                    &&& env.gateways[device.gateway_uid].devices[uid] == device.device_name@
                    &&& env.gateways[device.gateway_uid].name == old_gateway.name
                    &&& env.gateways[device.gateway_uid].uid == old_gateway.uid
                },
            }
        }),
{
    let after = store_registered(before, entity, uid);
    let env = after[entity.target_environment()];
    if let EntityRegistrationInput::Gateway(gateway) = entity {
        assert(env.gateways[uid].devices.dom() =~= Set::empty());
    }
}

/// Once a gateway is registered in an environment, a request for a device
/// on that gateway in that environment is accepted.
pub proof fn lemma_device_accepted_after_its_gateway(
    before: Map<u32, EnvironmentModel>,
    gateway: EntityRegistrationInput,
    gateway_uid: u32,
    device: EntityRegistrationInput,
)
    requires
        gateway is Gateway,
        registration_refusal(before, gateway) is None,
        device is Device,
        device->Device_0.env_uid == gateway.target_environment(),
        device->Device_0.gateway_uid == gateway_uid,
    ensures
        registration_refusal(store_registered(before, gateway, gateway_uid), device) is None,
{
}

} // verus!

verus! {

/// An environment store holds finitely many environments.
pub proof fn lemma_environment_store_finite(store: &EnvironmentStore)
    ensures
        store@.dom().finite(),
{
    assert(store@.dom() =~= store.environments@.dom());
}

} // verus!

verus! {

/// A call that changes the store of environments, as its contract states
/// it: creating an environment, or registering an entity (a refused
/// registration changes nothing).
pub enum StoreOperation {
    Create { name: Seq<char>, uid: u32, manager: Seq<char> },
    Register { entity: EntityRegistrationInput, uid: u32 },
}

/// The store after one operation.
pub open spec fn store_after(m: Map<u32, EnvironmentModel>, op: StoreOperation) -> Map<u32, EnvironmentModel> {
    match op {
        StoreOperation::Create { name, uid, manager } => m.insert(uid, new_environment(name, uid, manager)),
        StoreOperation::Register { entity, uid } => if registration_refusal(m, entity) is None {
            store_registered(m, entity, uid)
        } else {
            m
        },
    }
}

/// The store after the operations, in order.
pub open spec fn store_after_all(m: Map<u32, EnvironmentModel>, ops: Seq<StoreOperation>) -> Map<
    u32,
    EnvironmentModel,
>
    decreases ops.len(),
{
    if ops.len() == 0 {
        m
    } else {
        store_after_all(store_after(m, ops[0]), ops.drop_first())
    }
}

/// Whether the operation creates the environment `env_uid` or registers
/// something in it.
pub open spec fn touches(op: StoreOperation, env_uid: u32) -> bool {
    match op {
        StoreOperation::Create { uid, .. } => uid == env_uid,
        StoreOperation::Register { entity, .. } => entity.target_environment() == env_uid,
    }
}

/// An environment that no later operation creates or registers in reads
/// back as it was, and a missing one stays missing.
pub proof fn lemma_untouched_environment_persists(
    m: Map<u32, EnvironmentModel>,
    ops: Seq<StoreOperation>,
    env_uid: u32,
)
    requires
        forall|i: int| 0 <= i < ops.len() ==> !touches(#[trigger] ops[i], env_uid),
    ensures
        store_after_all(m, ops).contains_key(env_uid) == m.contains_key(env_uid),
        m.contains_key(env_uid) ==> store_after_all(m, ops)[env_uid] == m[env_uid],
    decreases ops.len(),
{
    if ops.len() > 0 {
        assert(!touches(ops[0], env_uid));
        let rest = ops.drop_first();
        assert forall|i: int| 0 <= i < rest.len() implies !touches(#[trigger] rest[i], env_uid) by {
            assert(rest[i] == ops[i + 1]);
        }
        lemma_untouched_environment_persists(store_after(m, ops[0]), rest, env_uid);
    }
}

/// A created environment reads back as created, with its name, uid and
/// manager and no gateways, after any later operations that neither
/// create it again nor register in it.
pub proof fn lemma_created_environment_persists(
    before: Map<u32, EnvironmentModel>,
    name: Seq<char>,
    uid: u32,
    manager: Seq<char>,
    later: Seq<StoreOperation>,
)
    requires
        forall|i: int| 0 <= i < later.len() ==> !touches(#[trigger] later[i], uid),
    ensures
        ({
            let after = store_after_all(before.insert(uid, new_environment(name, uid, manager)), later);
            after.contains_key(uid) && after[uid] == new_environment(name, uid, manager)
        }),
{
    lemma_untouched_environment_persists(before.insert(uid, new_environment(name, uid, manager)), later, uid);
}

/// A registered gateway reads back, with its name and uid and no devices,
/// after any later operations that neither create its environment again
/// nor register in it.
pub proof fn lemma_registered_gateway_persists(
    before: Map<u32, EnvironmentModel>,
    gateway: EntityRegistrationInput,
    gateway_uid: u32,
    later: Seq<StoreOperation>,
)
    requires
        gateway is Gateway,
        registration_refusal(before, gateway) is None,
        forall|i: int| 0 <= i < later.len() ==> !touches(#[trigger] later[i], gateway.target_environment()),
    ensures
        ({
            let after = store_after_all(store_registered(before, gateway, gateway_uid), later);
            let env = after[gateway.target_environment()];
            &&& after.contains_key(gateway.target_environment())
            &&& env.gateways.contains_key(gateway_uid)
            &&& env.gateways[gateway_uid] == GatewayModel {
                name: gateway->Gateway_0.gateway_name@,
                uid: gateway_uid,
                devices: Map::empty(),
            }
        }),
{
    let registered = store_registered(before, gateway, gateway_uid);
    lemma_untouched_environment_persists(registered, later, gateway.target_environment());
}

} // verus!
