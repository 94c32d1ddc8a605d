pub mod error;
pub mod hashing;
pub mod model;
pub mod password_validation;
