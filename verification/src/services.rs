//! The service containers: each bundles the parts of a service that its
//! handlers call.

use vstd::prelude::*;

verus! {

/// The authentication service's parts: password reset, identity, sign-in,
/// sign-up and tokens.
#[derive(Debug, Clone)]
pub struct AuthService<P, I, L, R, T> {
    pub passreset: P,
    pub identity: I,
    pub login: L,
    pub register: R,
    pub token: T,
}

/// The order service's parts: its queries and its commands.
#[derive(Debug, Clone)]
pub struct OrderService<Q, C> {
    pub query: Q,
    pub command: C,
}

/// The product service's parts: its queries and its commands.
#[derive(Debug, Clone)]
pub struct ProductService<Q, C> {
    pub query: Q,
    pub command: C,
}

/// The role service's parts: its queries and its commands.
#[derive(Debug, Clone)]
pub struct RoleService<Q, C> {
    pub query: Q,
    pub command: C,
}

/// What the user service is built from: a database pool, a password
/// hasher and a cache pool.
#[derive(Debug, Clone)]
pub struct DependenciesInjectDeps<P, H, R> {
    pub pool: P,
    pub hash: H,
    pub redis: R,
}

} // verus!
