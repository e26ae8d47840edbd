use vstd::prelude::*;

use crate::context::ServerIdentity;

verus! {

/// How to reach the backend that stores entities and queues. One backend
/// kind exists; callers rely on nothing beyond the store capabilities.
#[derive(Clone, Debug)]
pub enum DatabaseConfig {
    PostgreSQL { server: String, username: String, password: String, database: String },
}

impl DatabaseConfig {
    /// The tag that names the backend kind in configuration files.
    pub fn backend_name(&self) -> (r: String)
        ensures
            *self is PostgreSQL ==> r@ == "postgresql"@,
    {
        match self {
            DatabaseConfig::PostgreSQL { .. } => String::from_str("postgresql"),
        }
    }
}

/// The whole configuration: the backend and the server's identity.
#[derive(Clone, Debug)]
pub struct KroegConfig {
    pub database: DatabaseConfig,
    pub server: ServerIdentity,
}

} // verus!
