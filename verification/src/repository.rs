//! The repositories: each holds the database pool it runs its queries on.
//! The queries themselves run outside the library; here stand the
//! repositories, their grouping, and the decisions taken on query results.
//! A repository is generic over its pool, which the library only carries.

use vstd::prelude::*;
use std::sync::Arc;
use crate::errors::RepositoryError;

verus! {

/// Writes orders: creation, update, trash, restore and deletion.
pub struct OrderCommandRepository<P> {
    db: P,
}

impl<P> OrderCommandRepository<P> {
    /// The pool this repository runs its queries on.
    pub closed spec fn pool(&self) -> P {
        self.db
    }

    /// A repository running its queries on `db`.
    pub fn new(db: P) -> (r: Self)
        ensures
            r.pool() == db,
    {
        Self { db }
    }

    /// The pool this repository runs its queries on.
    pub fn db(&self) -> (r: &P)
        ensures
            *r == self.pool(),
    {
        &self.db
    }
}

/// Reads orders: pages of all, active or trashed orders, and single orders.
pub struct OrderQueryRepository<P> {
    db: P,
}

impl<P> OrderQueryRepository<P> {
    /// The pool this repository runs its queries on.
    pub closed spec fn pool(&self) -> P {
        self.db
    }

    /// A repository running its queries on `db`.
    pub fn new(db: P) -> (r: Self)
        ensures
            r.pool() == db,
    {
        Self { db }
    }

    /// The pool this repository runs its queries on.
    pub fn db(&self) -> (r: &P)
        ensures
            *r == self.pool(),
    {
        &self.db
    }
}

/// Writes products: creation, update, stock changes, trash, restore and deletion.
pub struct ProductCommandRepository<P> {
    db: P,
}

impl<P> ProductCommandRepository<P> {
    /// The pool this repository runs its queries on.
    pub closed spec fn pool(&self) -> P {
        self.db
    }

    /// A repository running its queries on `db`.
    pub fn new(db: P) -> (r: Self)
        ensures
            r.pool() == db,
    {
        Self { db }
    }

    /// The pool this repository runs its queries on.
    pub fn db(&self) -> (r: &P)
        ensures
            *r == self.pool(),
    {
        &self.db
    }
}

/// Reads products.
pub struct ProductQueryRepository<P> {
    db: P,
}

impl<P> ProductQueryRepository<P> {
    /// The pool this repository runs its queries on.
    pub closed spec fn pool(&self) -> P {
        self.db
    }

    /// A repository running its queries on `db`.
    pub fn new(db: P) -> (r: Self)
        ensures
            r.pool() == db,
    {
        Self { db }
    }

    /// The pool this repository runs its queries on.
    pub fn db(&self) -> (r: &P)
        ensures
            *r == self.pool(),
    {
        &self.db
    }
}

/// Reads password-reset tokens.
pub struct ResetTokenQueryRepository<P> {
    db: P,
}

impl<P> ResetTokenQueryRepository<P> {
    /// The pool this repository runs its queries on.
    pub closed spec fn pool(&self) -> P {
        self.db
    }

    /// A repository running its queries on `db`.
    pub fn new(db: P) -> (r: Self)
        ensures
            r.pool() == db,
    {
        Self { db }
    }

    /// The pool this repository runs its queries on.
    pub fn db(&self) -> (r: &P)
        ensures
            *r == self.pool(),
    {
        &self.db
    }
}

/// Writes roles: creation, update, trash, restore and deletion.
pub struct RoleCommandRepository<P> {
    db: P,
}

impl<P> RoleCommandRepository<P> {
    /// The pool this repository runs its queries on.
    pub closed spec fn pool(&self) -> P {
        self.db
    }

    /// A repository running its queries on `db`.
    pub fn new(db: P) -> (r: Self)
        ensures
            r.pool() == db,
    {
        Self { db }
    }

    /// The pool this repository runs its queries on.
    pub fn db(&self) -> (r: &P)
        ensures
            *r == self.pool(),
    {
        &self.db
    }
}

/// Reads roles: pages, single roles by id or name, and the roles of a user.
pub struct RoleQueryRepository<P> {
    db: P,
}

impl<P> RoleQueryRepository<P> {
    /// The pool this repository runs its queries on.
    pub closed spec fn pool(&self) -> P {
        self.db
    }

    /// A repository running its queries on `db`.
    pub fn new(db: P) -> (r: Self)
        ensures
            r.pool() == db,
    {
        Self { db }
    }

    /// The pool this repository runs its queries on.
    pub fn db(&self) -> (r: &P)
        ensures
            *r == self.pool(),
    {
        &self.db
    }
}

/// Writes users: creation, updates, trash, restore and deletion.
pub struct UserCommandRepository<P> {
    db: P,
}

impl<P> UserCommandRepository<P> {
    /// The pool this repository runs its queries on.
    pub closed spec fn pool(&self) -> P {
        self.db
    }

    /// A repository running its queries on `db`.
    pub fn new(db: P) -> (r: Self)
        ensures
            r.pool() == db,
    {
        Self { db }
    }

    /// The pool this repository runs its queries on.
    pub fn db(&self) -> (r: &P)
        ensures
            *r == self.pool(),
    {
        &self.db
    }
}

/// Reads users: pages, and single users by id, e-mail or verification code.
pub struct UserQueryRepository<P> {
    db: P,
}

impl<P> UserQueryRepository<P> {
    /// The pool this repository runs its queries on.
    pub closed spec fn pool(&self) -> P {
        self.db
    }

    /// A repository running its queries on `db`.
    pub fn new(db: P) -> (r: Self)
        ensures
            r.pool() == db,
    {
        Self { db }
    }

    /// The pool this repository runs its queries on.
    pub fn db(&self) -> (r: &P)
        ensures
            *r == self.pool(),
    {
        &self.db
    }
}

/// The order repositories, reading and writing through one pool.
pub struct OrderRepository<P> {
    pub query: Arc<OrderQueryRepository<P>>,
    pub command: Arc<OrderCommandRepository<P>>,
}

impl<P: Clone> OrderRepository<P> {
    /// Both order repositories on `pool`.
    pub fn new(pool: P) -> (r: Self)
        ensures
            cloned(pool, r.query.pool()),
            cloned(pool, r.command.pool()),
    {
        let query = Arc::new(OrderQueryRepository::new(pool.clone()));
        let command = Arc::new(OrderCommandRepository::new(pool.clone()));
        Self { query, command }
    }
}

/// The product repositories, reading and writing through one pool.
pub struct ProductRepository<P> {
    pub query: Arc<ProductQueryRepository<P>>,
    pub command: Arc<ProductCommandRepository<P>>,
}

impl<P: Clone> ProductRepository<P> {
    /// Both product repositories on `pool`.
    pub fn new(pool: P) -> (r: Self)
        ensures
            cloned(pool, r.query.pool()),
            cloned(pool, r.command.pool()),
    {
        let query = Arc::new(ProductQueryRepository::new(pool.clone()));
        let command = Arc::new(ProductCommandRepository::new(pool.clone()));
        Self { query, command }
    }
}

/// The role repositories, reading and writing through one pool.
pub struct RoleRepository<P> {
    pub query: Arc<RoleQueryRepository<P>>,
    pub command: Arc<RoleCommandRepository<P>>,
}

impl<P: Clone> RoleRepository<P> {
    /// Both role repositories on `pool`.
    pub fn new(pool: P) -> (r: Self)
        ensures
            cloned(pool, r.query.pool()),
            cloned(pool, r.command.pool()),
    {
        let query = Arc::new(RoleQueryRepository::new(pool.clone()));
        let command = Arc::new(RoleCommandRepository::new(pool.clone()));
        Self { query, command }
    }
}

/// The user repositories, reading and writing through one pool.
pub struct UserRepository<P> {
    pub query: Arc<UserQueryRepository<P>>,
    pub command: Arc<UserCommandRepository<P>>,
}

impl<P: Clone> UserRepository<P> {
    /// Both user repositories on `pool`.
    pub fn new(pool: P) -> (r: Self)
        ensures
            cloned(pool, r.query.pool()),
            cloned(pool, r.command.pool()),
    {
        let query = Arc::new(UserQueryRepository::new(pool.clone()));
        let command = Arc::new(UserCommandRepository::new(pool.clone()));
        Self { query, command }
    }
}

/// The outcome of deleting a trashed role: deleting no row means that no
/// trashed role has that id.
pub fn deletion_outcome(rows_affected: u64) -> (r: Result<(), RepositoryError>)
    ensures
        rows_affected == 0 <==> r matches Err(RepositoryError::NotFound),
        rows_affected != 0 <==> r is Ok,
{
    if rows_affected == 0 {
        Err(RepositoryError::NotFound)
    } else {
        Ok(())
    }
}

} // verus!
