pub mod common;
pub mod config;
pub mod domain;
pub mod errors;
pub mod events;
pub mod guard;
pub mod password;
pub mod service;
pub mod session;
pub mod tenant_scope;
pub mod token;
