//! A small authenticated blogging backend: users register and sign in, and
//! create, read, update, delete and publish posts under their own account.

pub mod api_error;
pub mod clock;
pub mod ident;
pub mod password;
pub mod post;
pub mod session;
pub mod user;
pub mod util;
