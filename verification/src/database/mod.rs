//! The stores that the blog keeps its users and posts in.
pub mod database_model;
pub mod model;
