//! User registration, password login and bearer-token protection, as a
//! library of decisions: every function here maps plain values to plain
//! values, and the caller does the serving, the storing and the clock reading.

pub mod controllers;
pub mod crypto;
pub mod middleware;
pub mod models;
pub mod status;
pub mod strategies;
