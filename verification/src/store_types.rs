//! What the database keeps of an environment: its gateways and, on each
//! gateway, its devices.
use std::collections::BTreeMap;
use vstd::prelude::*;

use crate::interface_types::{
    DeviceRegistrationResult, DeviceUID, EntityRegistrationInput, EntityRegistrationResult,
    EnvironmentUID, GatewayRegistrationResult, GatewayUID,
};

verus! {

/// A device attached to a gateway.
#[derive(Clone, Debug)]
pub struct DeviceInfo {
    pub device_name: String,
}

/// A gateway and the devices attached to it, keyed by device uid.
#[derive(Clone, Debug)]
pub struct GatewayInfo {
    pub gateway_name: String,
    pub gateway_uid: GatewayUID,
    pub devices: BTreeMap<DeviceUID, DeviceInfo>,
}

/// An environment and its gateways, keyed by gateway uid.
#[derive(Clone, Debug)]
pub struct EnvironmentInfo {
    pub env_name: String,
    pub env_uid: EnvironmentUID,
    pub env_gateways: BTreeMap<GatewayUID, GatewayInfo>,
    pub env_manager_principal_id: String,
}

/// Mathematical model of a gateway: its name, its uid and the names of its
/// devices by uid.
pub struct GatewayModel {
    pub name: Seq<char>,
    pub uid: u32,
    pub devices: Map<u32, Seq<char>>,
}

/// Mathematical model of an environment.
pub struct EnvironmentModel {
    pub name: Seq<char>,
    pub uid: u32,
    pub gateways: Map<u32, GatewayModel>,
    pub manager: Seq<char>,
}

impl View for DeviceInfo {
    type V = Seq<char>;

    open spec fn view(&self) -> Seq<char> {
        self.device_name@
    }
}

impl View for GatewayInfo {
    type V = GatewayModel;

    open spec fn view(&self) -> GatewayModel {
        GatewayModel {
            name: self.gateway_name@,
            uid: self.gateway_uid,
            devices: self.devices@.map_values(|d: DeviceInfo| d@),
        }
    }
}

impl View for EnvironmentInfo {
    type V = EnvironmentModel;

    open spec fn view(&self) -> EnvironmentModel {
        EnvironmentModel {
            name: self.env_name@,
            uid: self.env_uid,
            gateways: self.env_gateways@.map_values(|g: GatewayInfo| g@),
            manager: self.env_manager_principal_id@,
        }
    }
}

impl EnvironmentModel {
    /// Every gateway is filed under its own uid.
    pub open spec fn well_formed(self) -> bool {
        forall|k: u32| #[trigger] self.gateways.contains_key(k) ==> self.gateways[k].uid == k
    }

    /// The environment once a gateway named `name` is registered under `uid`
    /// (a gateway already filed under `uid` is replaced).
    pub open spec fn with_gateway(self, uid: u32, name: Seq<char>) -> EnvironmentModel {
        EnvironmentModel {
            gateways: self.gateways.insert(
                uid,
                GatewayModel { name, uid, devices: Map::empty() },
            ),
            ..self
        }
    }

    /// The environment once a device named `name` is attached under `uid` to
    /// the gateway filed under `gateway_uid`.
    pub open spec fn with_device(self, gateway_uid: u32, uid: u32, name: Seq<char>) -> EnvironmentModel {
        let g = self.gateways[gateway_uid];
        EnvironmentModel {
            gateways: self.gateways.insert(
                gateway_uid,
                GatewayModel { devices: g.devices.insert(uid, name), ..g },
            ),
            ..self
        }
    }

    /// Whether the registration request can be carried out here: a device
    /// needs its gateway to exist.
    pub open spec fn accepts(self, entity: EntityRegistrationInput) -> bool {
        match entity {
            EntityRegistrationInput::Gateway(_) => true,
            EntityRegistrationInput::Device(device) => self.gateways.contains_key(
                device.gateway_uid,
            ),
        }
    }

    /// The environment once `entity` is registered under `uid`.
    pub open spec fn registered(self, entity: EntityRegistrationInput, uid: u32) -> EnvironmentModel {
        match entity {
            EntityRegistrationInput::Gateway(gateway) => self.with_gateway(uid, gateway.gateway_name@),
            EntityRegistrationInput::Device(device) => self.with_device(
                device.gateway_uid,
                uid,
                device.device_name@,
            ),
        }
    }
}

impl EnvironmentInfo {
    /// A copy of the environment, its gateways and their devices.
    pub fn copy(&self) -> (r: EnvironmentInfo)
        ensures
            r@ == self@,
    {
        EnvironmentInfo {
            env_name: self.env_name.clone(),
            env_uid: self.env_uid,
            env_gateways: self.env_gateways.clone(),
            env_manager_principal_id: self.env_manager_principal_id.clone(),
        }
    }

    /// Registers `entity` under `uid` in this environment and returns the
    /// reply: a gateway is filed under `uid` with no devices; a device is
    /// attached under `uid` to the gateway it names, which must exist.
    pub fn update(&mut self, entity: EntityRegistrationInput, uid: u32) -> (result: EntityRegistrationResult)
        requires
            old(self)@.accepts(entity),
        ensures
            final(self)@ == old(self)@.registered(entity, uid),
            result@ == entity.outcome(uid),
            old(self)@.well_formed() ==> final(self)@.well_formed(),
    {
        let ghost old_gateways = self.env_gateways@;
        match entity {
            EntityRegistrationInput::Gateway(gateway) => {
                let new_gateway = GatewayInfo {
                    gateway_name: gateway.gateway_name.clone(),
                    gateway_uid: uid,
                    devices: BTreeMap::new(),
                };
                assert(new_gateway.devices@.map_values(|d: DeviceInfo| d@) =~= Map::empty());
                self.env_gateways.insert(uid, new_gateway);
                assert(self.env_gateways@.map_values(|g: GatewayInfo| g@) =~= old_gateways.map_values(
                    |g: GatewayInfo| g@,
                ).insert(uid, GatewayModel { name: gateway.gateway_name@, uid, devices: Map::empty() }));
                EntityRegistrationResult::Gateway(
                    GatewayRegistrationResult { gateway_name: gateway.gateway_name, gateway_uid: uid },
                )
            },
            EntityRegistrationInput::Device(device) => {
                match self.env_gateways.remove(&device.gateway_uid) {
                    Some(mut gateway_info) => {
                        let ghost old_devices = gateway_info.devices@;
                        gateway_info.devices.insert(
                            uid,
                            DeviceInfo { device_name: device.device_name.clone() },
                        );
                        assert(gateway_info.devices@.map_values(|d: DeviceInfo| d@) =~= old_devices.map_values(
                            |d: DeviceInfo| d@,
                        ).insert(uid, device.device_name@));
                        let ghost new_gateway = gateway_info@;
                        self.env_gateways.insert(device.gateway_uid, gateway_info);
                        assert(self.env_gateways@.map_values(|g: GatewayInfo| g@) =~= old_gateways.map_values(
                            |g: GatewayInfo| g@,
                        ).insert(device.gateway_uid, new_gateway));
                        EntityRegistrationResult::Device(
                            DeviceRegistrationResult { device_name: device.device_name, device_uid: uid },
                        )
                    },
                    None => {
                        assert(old_gateways.map_values(|g: GatewayInfo| g@).contains_key(device.gateway_uid));
                        unreached()
                    },
                }
            },
        }
    }
}

} // verus!

verus! {

/// Registering a device under `uid` on gateway `g` attaches it there with
/// its name, keeps every other device of `g` with the same name, keeps the
/// gateway's name and uid, and leaves every other gateway and the
/// environment's own name, uid and manager as they were.
pub proof fn lemma_device_registration_keeps_the_rest(
    env: EnvironmentModel,
    entity: EntityRegistrationInput,
    uid: u32,
)
    requires
        entity is Device,
        env.accepts(entity),
    ensures
        ({
            let g = entity->Device_0.gateway_uid;
            let after = env.registered(entity, uid);
            &&& after.name == env.name && after.uid == env.uid && after.manager == env.manager
            &&& after.gateways.dom() == env.gateways.dom()
            &&& after.gateways[g].name == env.gateways[g].name
            &&& after.gateways[g].uid == env.gateways[g].uid
            &&& after.gateways[g].devices.contains_key(uid)
            &&& after.gateways[g].devices[uid] == entity->Device_0.device_name@
            &&& after.gateways[g].devices.dom() == env.gateways[g].devices.dom().insert(uid)
            &&& forall|d: u32|
                d != uid && #[trigger] env.gateways[g].devices.contains_key(d)
                    ==> after.gateways[g].devices[d] == env.gateways[g].devices[d]
            &&& forall|h: u32|
                h != g && #[trigger] env.gateways.contains_key(h) ==> after.gateways[h]
                    == env.gateways[h]
        }),
{
    let g = entity->Device_0.gateway_uid;
    let after = env.registered(entity, uid);
    assert(after.gateways.dom() =~= env.gateways.dom());
    assert(after.gateways[g].devices.dom() =~= env.gateways[g].devices.dom().insert(uid));
}

/// Registering a gateway under `uid` files it there with its name and no
/// devices, and leaves every other gateway and the environment's own name,
/// uid and manager as they were.
pub proof fn lemma_gateway_registration_keeps_the_rest(
    env: EnvironmentModel,
    entity: EntityRegistrationInput,
    uid: u32,
)
    requires
        entity is Gateway,
    ensures
        ({
            let after = env.registered(entity, uid);
            &&& after.name == env.name && after.uid == env.uid && after.manager == env.manager
            &&& after.gateways.dom() == env.gateways.dom().insert(uid)
            &&& after.gateways[uid].name == entity->Gateway_0.gateway_name@
            &&& after.gateways[uid].uid == uid
            &&& after.gateways[uid].devices.dom().is_empty()
            &&& forall|h: u32|
                h != uid && #[trigger] env.gateways.contains_key(h) ==> after.gateways[h]
                    == env.gateways[h]
        }),
{
    let after = env.registered(entity, uid);
    assert(after.gateways.dom() =~= env.gateways.dom().insert(uid));
    assert(after.gateways[uid].devices.dom() =~= Set::empty());
}

} // verus!
