//! Publishing, fetching, updating and removing components (a binary payload
//! plus a metadata document) stored as OCI image artifacts in a container
//! registry.
pub mod delete;
pub mod digest;
pub mod entities;
pub mod error;
pub mod fetch;
pub mod ingress;
pub mod json;
pub mod manifest;
pub mod registry;
pub mod upload;
