//! A jar of cookies: short notes kept in named buckets, stored in a
//! two-table relational store that is replicated to a remote endpoint.
//!
//! The library decides; a thin driver around it talks to the store, the
//! terminal and the environment.

pub mod clock;
pub mod config;
pub mod db;
pub mod laws;
pub mod menu;
pub mod models;
pub mod session;
pub mod sql;
pub mod store;
