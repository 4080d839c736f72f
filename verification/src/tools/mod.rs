//! The MCP tools of the Postman server: their names, descriptions, inputs,
//! outputs, and the decisions each one makes around its API calls.

pub mod collections;
pub mod common;
pub mod environments;
pub mod request_executor;
pub mod requests;
pub mod runner;
pub mod variables;
