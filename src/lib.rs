//! Typed records for the OBO Foundry registry of ontologies, and verified
//! decoders that build them from a structured document.
//!
//! A document is a `Tree`: an arena of `Node`s in which every container
//! names children pushed before it. `Foundry::from_document` reads the
//! registry from the tree's root; each record type reads itself from a node
//! through `Decode`, whose contract relates the record to the node exactly.
//! `Foundry::to_document` writes a registry back out as a tree that reads
//! back as the same registry.

pub mod encode;
pub mod error;
pub mod field;
pub mod frame;
pub mod grow;
pub mod kinds;
pub mod laws;
pub mod link;
pub mod model;
pub mod record;
pub mod tree;
pub mod write;

pub use error::{error_at, DecodeError, ErrorKind};
pub use kinds::{ActivityStatus, BuildMethod, BuildSystem, JobType, UsageType};
pub use link::{parsed_href, Url};
pub use model::{
    bool_false, bool_true, Browser, Build, Contact, Dependency, Development, Document, Example,
    Foundry, Funding, Job, License, Ontology, Product, Publication, Redirect, Review, Taxon, Usage,
};
pub use record::{Decode, Spelled};
pub use tree::{Entry, Node, Tree};
