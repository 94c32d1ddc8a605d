//! The core of a task-tracking service for many users: credentials, session
//! tokens, the identity of the caller, and tasks that only their owner can
//! reach.
//!
//! The library does no input or output. Where an operation needs the storage
//! layer, it says what to ask of it and reads what it answered; the
//! collections in [`database`] answer the same questions in memory.

pub mod controller;
pub mod database;
pub mod middleware;
pub mod model;
pub mod routes;
pub mod service;
pub mod utils;
