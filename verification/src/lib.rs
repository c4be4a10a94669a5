//! In-memory entity store for an IT project tracking backend.
//!
//! The library keeps one keyed collection per entity kind (projects, work
//! items, users), each offering create, read, update and delete operations
//! whose behaviour is stated over a sequence view of the collection. The
//! HTTP layer around it only parses payloads and forwards plain values.

pub mod clock;
pub mod collection;
pub mod ids;
pub mod models;
pub mod projets;
pub mod seed;
pub mod travaux;
pub mod utilisateurs;
