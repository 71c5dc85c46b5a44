//! Browsing support for a container image registry: the manifest model, the
//! decisions of the registry transport, and the manifest resolution engine that
//! turns an (image, tag) pair into per-platform image summaries.

pub mod registry_types;
pub mod types;
pub mod manager;
pub mod registry_api;
pub mod routes;
