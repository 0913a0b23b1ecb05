//! Credential issuance and verification for a booking marketplace: password
//! hashing, role resolution, session tokens, and the registration and login
//! decisions built on them.

pub mod error;
pub mod model;
pub mod password;
pub mod registration;
pub mod role;
pub mod session;
pub mod store;
pub mod text;
pub mod token;

pub use crate::registration::register;
pub use crate::session::{login, me};
