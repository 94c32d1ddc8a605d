pub mod filter;
pub mod todo_collection;
pub mod user_collection;
