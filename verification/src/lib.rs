//! Verified core of a small e-commerce backend made of microservices
//! (users, roles, products, orders, authentication).
//!
//! The library holds the decisions of the services: how errors travel
//! between the storage layer, gRPC and HTTP, how pages of results are
//! computed, and the step-by-step flows of the service operations. The
//! awaiting, the database, the message bus and the network stay with the
//! caller, which performs each requested action and hands back its outcome.

pub mod errors;
pub mod text;
pub mod metrics;
pub mod datetime;
pub mod random;
pub mod pagination;
pub mod template;
pub mod config;
pub mod requests;
pub mod responses;
pub mod repository;
pub mod model;
pub mod login;
pub mod register;
pub mod order;
pub mod lookup;
pub mod user_service;
pub mod identity;
pub mod product;
pub mod events;
pub mod services;
