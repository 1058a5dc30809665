//! Ingest filesystem paths into a tree of nodes.
//!
//! The library mirrors a directory hierarchy into an attribute-carrying
//! tree: each discovered path becomes one node holding timestamp metadata
//! and, for regular files, a lazy content accessor that records only the
//! path and size needed to reopen the file later.  All filesystem probing
//! is performed by the caller, which feeds the observed facts into the
//! traversal state machine defined here.

#![allow(unused_imports)]

pub mod attribute;
pub mod error;
pub mod metadata;
pub mod node;
pub mod tree;
pub mod vfile;
pub mod walk;

pub use attribute::Attribute;
pub use attribute::Attributes;
pub use attribute::Value;
pub use error::LocalError;
pub use node::Node;
pub use tree::Tree;
pub use tree::TreeNodeId;
pub use metadata::FsMetadata;
pub use metadata::Timestamp;
pub use vfile::LocalVFileBuilder;
pub use walk::Arguments;
pub use walk::Local;
pub use walk::PathFacts;
pub use walk::Results;
pub use walk::Traversal;
pub use walk::WorkItem;
