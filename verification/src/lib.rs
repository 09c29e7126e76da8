//! An access-controlled registry of audit metadata: one record per authority,
//! stored at an address derived from the authority's key.
//!
//! - [`key`]: 32-byte keys.
//! - [`address`]: the derivation of a registry's address from its authority.
//! - [`registry`]: the record, its storage slot and the metadata.
//! - [`instructions`]: initialization and update, with their contracts.
//! - [`laws`]: what holds of the instructions on every input.
//! - [`error`]: why an instruction is refused.

pub mod address;
pub mod error;
pub mod instructions;
pub mod key;
pub mod laws;
pub mod registry;

pub use error::AuditRegistryError;
pub use instructions::{
    initialize_registry, initialize_registry_with, update_metadata, update_metadata_with,
    InitializeRegistry, UpdateMetadata,
};
pub use key::Key;
pub use registry::{MetadataInput, Registry, RegistryAccount};
