//! Request-scoped authentication for a small account portal: a packed flag
//! model on user records, salted password checks, a session identity, the
//! resolver that turns it into a request context, and the security token
//! that handlers branch on.

pub mod flags;
pub mod codec;
pub mod text;
pub mod user;
pub mod error;
pub mod session;
pub mod security;
pub mod resolver;
pub mod form;
pub mod auth;
