//! Postman workspace operations for an MCP server: collection trees,
//! variable interpolation, authentication, request preparation, run
//! bookkeeping and the payloads and summaries of every tool.

pub mod client;
pub mod json;
pub mod models;
pub mod outside;
pub mod text;
pub mod tools;
pub mod utils;
