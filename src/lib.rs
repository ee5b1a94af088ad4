//! A small library that turns a plain resource description into a set of CRUD
//! routes and maps the outcome of each capability call to a uniform response
//! envelope with RFC 7807 problem bodies.

pub mod cms;
pub mod content;
pub mod endpoints;
pub mod env;
pub mod errors;
pub mod problems;
pub mod responses;
pub mod routes;
pub mod routing;
pub mod schema;
pub mod text;
