//! A URL shortener: short random identifiers, URL validation, a table of
//! links, and the decisions behind the create and redirect routes.

pub mod ident;
pub mod error;
pub mod validate;
pub mod store;
pub mod service;
