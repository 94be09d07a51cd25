pub mod auth;
pub mod cors;
pub mod identity;
