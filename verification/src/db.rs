//! The catalog: photos, collections and the memberships between them, with
//! the rules that keep it consistent. Paths and names are unique, identities
//! are never reused, and a membership always joins a photo and a collection
//! that exist.
//!
//! The catalog is a value. Making it durable is the caller's part: every
//! operation says exactly how the catalog changes, so that the same change
//! can be written to a store.

pub mod laws;
pub mod lemmas;
pub mod model;
pub mod service;
pub mod types;

pub use service::DatabaseService;
pub use types::{
    Backup, CatalogError, Collection, Photo, PhotoCollection, SchemaStep, SCHEMA_VERSION,
};
