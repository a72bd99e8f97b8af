//! A client for a cloud analytics database: it sends SQL over HTTP, follows the session
//! changes that responses direct, refreshes a refused token once, and decodes the JSON
//! result into typed columns and rows read on demand.
pub mod auth;
pub mod client;
pub mod convert;
pub mod error;
pub mod factory;
pub mod headers;
pub mod json;
pub mod params;
pub mod parser;
pub mod result;
pub mod text;
pub mod types;
pub mod version;

pub use client::FireboltClient;
pub use error::FireboltError;
pub use factory::FireboltClientFactory;
pub use result::{ResultSet, Row};
pub use types::{Column, ColumnRef, Type};
