pub mod todo_service;
pub mod token_service;
pub mod user_service;
