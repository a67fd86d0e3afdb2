# omnia

Bookkeeping of the Omnia home-automation backend as a Verus library.

- `src/interface_types.rs`: registration requests and replies.
- `src/store_types.rs`: environments, gateways, devices, and registering an
  entity in an environment.
- `src/environment.rs`: the store of environments (creation, registration,
  lookup) and its laws.
- `src/profile.rs`: user profiles keyed by principal, and their laws.
- `src/manager.rs`: the manager's decision on environment creation and the
  device certificate report.
- `src/virtual_persona.rs`: decisions of the virtual-persona requests, taking
  what the database's stores answered.
- `src/device.rs`: registered-device index and value.
- `app/`: the canister entry points (database and manager) around the library.
