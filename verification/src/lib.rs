//! Environment, gateway, device and user-profile bookkeeping of the Omnia
//! home-automation backend, with verified contracts.
pub mod interface_types;
pub mod store_types;
pub mod environment;
pub mod profile;
pub mod device;
pub mod manager;
pub mod virtual_persona;
