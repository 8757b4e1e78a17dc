//! Posts: the table, the store and the requests on it.

pub mod model;
pub mod routes;
pub mod table;

pub use model::{NewPost, Post, PostPatch, PostStore, PublicPost};
