//! A queryable relationship graph over cloud-infrastructure resource records.
//!
//! Raw records (canonical type string, identifier, structured properties) are
//! projected onto a closed set of known resource types with a generic
//! fallback, relationship descriptors extract foreign-key-like references
//! from the property documents, and a breadth-first assembler materializes a
//! bounded, de-duplicated node/edge topology from a seed resource.  A paged
//! listing service enumerates resources by type and filter with opaque
//! resume cursors.

pub mod text;
pub mod model;
pub mod props;
pub mod registry;
pub mod store;
pub mod resolve;
pub mod topology;
pub mod cursor;
pub mod paging;
pub mod engine;
pub mod connections;
