//! The decision logic of a small text-editing proxy: which prompt a command
//! becomes, which request goes to the completion service, and what its answer
//! means for the caller.

pub mod command;
pub mod error;
pub mod request;
pub mod response;
pub mod service;
pub mod text;
