//! Generation of Solidity struct and event declarations from contract event
//! descriptors, together with the plain data and decision logic of the
//! GhostGraph command-line client.

pub mod abi;
pub mod abi_laws;
pub mod chain;
pub mod text;
pub mod types;
pub mod api;
pub mod configure;
pub mod explorer;
pub mod listing;
pub mod commands;
