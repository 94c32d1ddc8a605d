pub mod object_id;
pub mod todo_model;
pub mod user_model;
