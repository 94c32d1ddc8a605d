pub mod todo_controller;
pub mod user_controller;
