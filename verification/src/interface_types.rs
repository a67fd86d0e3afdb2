//! Requests and replies exchanged when environments, gateways and devices
//! are created or registered.
use vstd::prelude::*;

verus! {

/// Identifier of an environment.
pub type EnvironmentUID = u32;

/// Identifier of a gateway inside an environment.
pub type GatewayUID = u32;

/// Identifier of a device attached to a gateway.
pub type DeviceUID = u32;

/// Request to create a new environment.
pub struct EnvironmentCreationInput {
    pub env_name: String,
}

/// Reply to an environment creation: its name and the uid it was given.
pub struct EnvironmentCreationResult {
    pub env_name: String,
    pub env_uid: EnvironmentUID,
}

/// Request to register a gateway in an environment.
pub struct GatewayRegistrationInput {
    pub env_uid: EnvironmentUID,
    pub gateway_name: String,
}

/// Reply to a gateway registration.
pub struct GatewayRegistrationResult {
    pub gateway_name: String,
    pub gateway_uid: GatewayUID,
}

/// Request to register a device on a gateway of an environment.
pub struct DeviceRegistrationInput {
    pub env_uid: EnvironmentUID,
    pub gateway_uid: GatewayUID,
    pub device_name: String,
}

/// Reply to a device registration.
pub struct DeviceRegistrationResult {
    pub device_name: String,
    pub device_uid: DeviceUID,
}

/// Either kind of registration request.
pub enum EntityRegistrationInput {
    Gateway(GatewayRegistrationInput),
    Device(DeviceRegistrationInput),
}

/// Either kind of registration reply.
pub enum EntityRegistrationResult {
    Gateway(GatewayRegistrationResult),
    Device(DeviceRegistrationResult),
}

/// What a registration reply says: which kind of entity, its name and its uid.
pub enum RegistrationOutcome {
    Gateway { name: Seq<char>, uid: u32 },
    Device { name: Seq<char>, uid: u32 },
}

impl View for EntityRegistrationResult {
    type V = RegistrationOutcome;

    open spec fn view(&self) -> RegistrationOutcome {
        match self {
            EntityRegistrationResult::Gateway(g) => RegistrationOutcome::Gateway {
                name: g.gateway_name@,
                uid: g.gateway_uid,
            },
            EntityRegistrationResult::Device(d) => RegistrationOutcome::Device {
                name: d.device_name@,
                uid: d.device_uid,
            },
        }
    }
}

impl RegistrationOutcome {
    /// The uid handed to the registered entity.
    pub open spec fn uid(self) -> u32 {
        match self {
            RegistrationOutcome::Gateway { uid, .. } => uid,
            RegistrationOutcome::Device { uid, .. } => uid,
        }
    }
}

impl EntityRegistrationInput {
    /// The environment a registration request is addressed to.
    pub open spec fn target_environment(&self) -> EnvironmentUID {
        match self {
            EntityRegistrationInput::Gateway(gateway) => gateway.env_uid,
            EntityRegistrationInput::Device(device) => device.env_uid,
        }
    }

    /// The reply owed to this request when the new entity gets `uid`.
    pub open spec fn outcome(&self, uid: u32) -> RegistrationOutcome {
        match self {
            EntityRegistrationInput::Gateway(gateway) => RegistrationOutcome::Gateway {
                name: gateway.gateway_name@,
                uid,
            },
            EntityRegistrationInput::Device(device) => RegistrationOutcome::Device {
                name: device.device_name@,
                uid,
            },
        }
    }

    /// Returns the uid of the environment the request is addressed to,
    /// whichever kind of entity it registers.
    #[allow(non_snake_case)]
    pub fn getEnvironmentUID(&self) -> (uid: EnvironmentUID)
        ensures
            uid == self.target_environment(),
    {
        match self {
            EntityRegistrationInput::Gateway(gateway) => gateway.env_uid,
            EntityRegistrationInput::Device(device) => device.env_uid,
        }
    }
}

} // verus!
