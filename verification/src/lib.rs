//! Factotum: identities, permission rules and tickets of the authentication
//! service, with the decisions of its message loop.

mod table;

pub mod layout;
pub mod manager;
pub mod manager_effects;
pub mod manager_laws;
pub mod protocol;
pub mod server;
pub mod server_effects;
pub mod server_laws;
pub mod ticket;
