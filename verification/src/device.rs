//! Index and value under which a registered device is kept.
use vstd::prelude::*;

verus! {

/// Identifier of a registered device.
pub type DeviceUid = String;

/// Publicly reachable URL of a device.
pub type DeviceUrl = String;

/// Key of a registered device; registered devices are ordered by their uid.
#[derive(Clone, Debug, Default, PartialEq, Eq, PartialOrd, Ord)]
pub struct RegisteredDeviceIndex {
    pub device_uid: DeviceUid,
}

/// What is kept of a registered device: the gateway it is attached to, its
/// environment and the URL it is reached at.
#[derive(Clone, Debug, Default)]
pub struct RegisteredDeviceValue {
    pub gateway_principal_id: String,
    pub env_uid: String,
    pub device_url: DeviceUrl,
}

} // verus!
