//! Translates compact, hand-authored YAML endpoint declarations into a
//! structured API-description document: per-endpoint operations with query
//! parameters, request bodies and response schemas, plus a registry of
//! named schemas.
pub mod laws;
pub mod names;
pub mod params;
pub mod parse;
pub mod response;
pub mod schema;
pub mod swagger;
pub mod types;
pub mod utils;
pub mod yaml;

pub use crate::swagger::build_open_api;
pub use crate::types::{ApiEndpoint, ApiEndpointMethod, ApiProject};
