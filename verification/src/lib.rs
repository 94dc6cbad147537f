//! Identity and access control for a multi-user task service: password
//! hashing, bearer tokens, the authentication of each request, and the
//! decisions of the registration, login and task flows.

pub mod common;
pub mod config;
pub mod middleware;
pub mod models;
pub mod services;
