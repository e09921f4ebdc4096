//! Storage-facing logic of a small user directory: the statements it sends to
//! its SQL engine, what it makes of the answers, and how it brings the shared
//! connection pool up.

pub mod database;
pub mod error;
pub mod laws;
pub mod models;
pub mod services;
pub mod sql;
pub mod store;
pub mod time;
