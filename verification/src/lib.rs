//! Core workflow of a small multi-user polling service: identifier syntax,
//! form validation, the relational state the service keeps, and the
//! decision logic of every route (create, join, show, suggest).
//!
//! The surrounding binary performs the HTTP and database plumbing; every
//! decision it acts on is computed here.

pub mod configuration;
pub mod domain;
pub mod ids;
pub mod middleware;
pub mod routes;
pub mod session;
pub mod store;
pub mod utils;
