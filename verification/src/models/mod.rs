//! The Postman API's data, as the library holds it.

pub mod collection;
pub mod environment;
