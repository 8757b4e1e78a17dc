//! Users: the table, the credential store and the requests on it.

pub mod model;
pub mod routes;
pub mod table;

pub use model::{PublicUser, User, UserMessage, UserPatch, UserStore};
