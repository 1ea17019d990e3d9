pub mod auth;
pub mod bytes;
pub mod error;
pub mod instruction;
pub mod laws;
pub mod proposal;
pub mod proxy;
pub mod registry;
