//! The backend's configuration as plain data. Reading and decoding the
//! configuration file happens in the application layer.

use vstd::prelude::*;

verus! {

/// Where to reach one network service.
#[derive(Clone, Debug)]
pub struct Host {
    pub address: String,
    pub port: u16,
}

/// Connection settings of the relational user store.
#[derive(Clone, Debug)]
pub struct Postgres {
    pub address: String,
    pub port: u16,
    pub user: String,
    pub password: String,
}

/// The school the backend serves: its registration mails must match the
/// given pattern.
#[derive(Clone, Debug)]
pub struct School {
    pub name: String,
    pub mail_pattern: String,
    pub example_mail: String,
}

/// Everything the backend needs to start.
#[derive(Clone, Debug)]
pub struct BackendConfig {
    pub host: Host,
    pub postgres: Postgres,
    pub redis: Host,
    pub school: School,
}

} // verus!
