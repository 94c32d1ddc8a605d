pub mod auth;
pub mod not_found;
