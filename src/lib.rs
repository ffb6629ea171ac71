//! A typed client layer for a remote document database: request contracts,
//! response-envelope decoding, the cursor protocol and the query-plan model.

pub mod json;
pub mod error;
pub mod method;
pub mod query;
pub mod cursor;
pub mod cursor_methods;
pub mod plan;
pub mod expression;
pub mod aql;
pub mod cursor_store;
