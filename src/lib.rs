//! Interface-definition compiler: a validated model of message, service and
//! action definitions, and its emission as Rust source text.
pub mod ident;
pub mod types;
pub mod message;
pub mod service;
pub mod action;
pub mod package;
pub mod scaffold;
