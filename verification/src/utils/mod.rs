//! Helpers shared by the tools: variable interpolation, authentication,
//! collection trees, request preparation and error values.

pub mod vars;
pub mod items;
pub mod auth;
pub mod executor;
pub mod errors;
