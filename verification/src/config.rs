//! Configuration of the user service's gRPC clients.

use vstd::prelude::*;
use crate::text::copy_str;

verus! {

/// Where the role service listens.
#[derive(Debug, Clone)]
pub struct GrpcClientConfig {
    pub role: String,
}

/// Why the client configuration could not be read.
#[derive(Debug, Clone)]
pub enum ConfigError {
    /// A required environment variable is not set; the text names it.
    MissingVariable(String),
}

impl GrpcClientConfig {
    /// The configuration read from the value of `GRPC_ROLE_ADDR`, which the
    /// caller looks up; it fails, naming the variable, when it is not set.
    pub fn from_role_address(role: Option<String>) -> (r: Result<GrpcClientConfig, ConfigError>)
        ensures
            match role {
                Some(addr) => r matches Ok(c) && c.role@ == addr@,
                None => r matches Err(ConfigError::MissingVariable(m))
                    && m@ == "Missing environment variable: GRPC_ROLE_ADDR"@,
            },
    {
        match role {
            Some(addr) => Ok(GrpcClientConfig { role: addr }),
            None => Err(ConfigError::MissingVariable(copy_str("Missing environment variable: GRPC_ROLE_ADDR"))),
        }
    }
}

} // verus!
