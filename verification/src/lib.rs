//! Verified core of an administrative backend for staff, departments,
//! positions and roles.
//!
//! The heart of the crate is the handling of sessions: a login is answered
//! with a signed credential ([`infrastructure::security::identity`]), every
//! request has its identity resolved from the credential it presents
//! ([`interface::middleware::identity`]), and a guard lets a request through
//! to a protected route only with the one credential under which the user's
//! live session was opened ([`interface`]). The order of the stages that a
//! request passes is fixed in [`interface::router`].
//!
//! Nothing here reaches the data store or the network. Where a flow needs
//! them, the functions say what is to be asked next and take what came back
//! ([`infrastructure::repository`]).

pub mod application;
pub mod common;
pub mod infrastructure;
pub mod interface;
