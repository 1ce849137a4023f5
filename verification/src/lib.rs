//! The verified core of a service for sharing costs within groups of users:
//! the decisions of its request handlers, payload validation, password hashing
//! and checking, session claims and the settings of its database pool.

pub mod database;
pub mod extractors;
pub mod models;
pub mod password;
pub mod routes;
pub mod server;
pub mod validate;
