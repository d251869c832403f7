pub mod config;
pub mod decimal;
pub mod error;
pub mod extractors;
pub mod handlers;
pub mod laws;
pub mod model;
pub mod todo_store;
pub mod use_cases;
