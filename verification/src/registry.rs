//! The registry record, the account that holds it, and the metadata that an
//! authority writes into it.

use vstd::prelude::*;
use vstd::utf8::encode_utf8;
use crate::key::Key;

verus! {

/// The audit metadata that an authority controls. There is one registry per
/// authority.
#[derive(Clone, Debug, PartialEq, Eq)]
pub struct Registry {
    /// The authority that controls the registry. Never changes.
    pub authority: Key,
    /// The version given at initialization; greater than zero. Never changes.
    pub version: u64,
    /// The bump seed that, with the authority, derives the registry's
    /// address. Never changes.
    pub bump: u8,
    /// Where the audit artifacts are described; at most `URI_LIMIT` bytes.
    pub metadata_uri: String,
    /// The checksum of the metadata. The registry does not interpret it.
    pub metadata_checksum: [u8; 32],
}

/// A registry as a mathematical value.
pub struct RegistryView {
    pub authority: Seq<u8>,
    pub version: u64,
    pub bump: u8,
    pub metadata_uri: Seq<char>,
    pub metadata_checksum: Seq<u8>,
}

impl View for Registry {
    type V = RegistryView;

    open spec fn view(&self) -> RegistryView {
        RegistryView {
            authority: self.authority@,
            version: self.version,
            bump: self.bump,
            metadata_uri: self.metadata_uri@,
            metadata_checksum: self.metadata_checksum@,
        }
    }
}

/// The number of bytes that a URI takes in an account.
pub open spec fn uri_len(uri: Seq<char>) -> nat {
    encode_utf8(uri).len()
}

/// The checksum of a registry that has no metadata yet: 32 zero bytes.
pub open spec fn empty_checksum() -> Seq<u8> {
    Seq::new(32, |i: int| 0u8)
}

impl RegistryView {
    /// What holds of every registry that the instructions leave behind: the
    /// version is positive and the URI is within its limit.
    pub open spec fn well_formed(self) -> bool {
        &&& self.version > 0
        &&& uri_len(self.metadata_uri) <= Registry::URI_LIMIT
        &&& self.authority.len() == 32
        &&& self.metadata_checksum.len() == 32
    }

    /// The registry that initialization creates.
    pub open spec fn fresh(authority: Seq<u8>, version: u64, bump: u8) -> RegistryView {
        RegistryView {
            authority,
            version,
            bump,
            metadata_uri: Seq::empty(),
            metadata_checksum: empty_checksum(),
        }
    }

    /// The registry with its metadata replaced.
    pub open spec fn with_metadata(self, metadata: MetadataInputView) -> RegistryView {
        RegistryView {
            metadata_uri: metadata.uri,
            metadata_checksum: metadata.checksum,
            ..self
        }
    }
}

impl Registry {
    /// The greatest length of a metadata URI, in bytes.
    pub const URI_LIMIT: usize = 200;

    /// The space of a registry account, in bytes.
    pub const LEN: usize = 8 + 32 + 8 + 1 + 4 + Self::URI_LIMIT + 32;

    /// A registry without metadata. It is well-formed where the version is
    /// positive.
    pub fn new(authority: Key, version: u64, bump: u8) -> (registry: Registry)
        ensures
            registry@ == RegistryView::fresh(authority@, version, bump),
            version > 0 ==> registry@.well_formed(),
    {
        let registry = Registry {
            authority,
            version,
            bump,
            metadata_uri: String::new(),
            metadata_checksum: [0; 32],
        };
        assert(registry.metadata_checksum@ =~= empty_checksum());
        registry
    }
}

/// The metadata that an authority supplies.
#[derive(Clone, Debug, PartialEq, Eq)]
pub struct MetadataInput {
    pub uri: String,
    pub checksum: [u8; 32],
}

/// Supplied metadata as a mathematical value.
pub struct MetadataInputView {
    pub uri: Seq<char>,
    pub checksum: Seq<u8>,
}

impl View for MetadataInput {
    type V = MetadataInputView;

    open spec fn view(&self) -> MetadataInputView {
        MetadataInputView { uri: self.uri@, checksum: self.checksum@ }
    }
}

/// The storage slot at an address: empty, or holding a registry.
#[derive(Clone, Debug, PartialEq, Eq)]
pub struct RegistryAccount {
    /// The address of the slot.
    pub key: Key,
    /// What the slot holds.
    pub data: Option<Registry>,
}

/// A storage slot as a mathematical value.
pub struct RegistryAccountView {
    pub key: Seq<u8>,
    pub data: Option<RegistryView>,
}

impl View for RegistryAccount {
    type V = RegistryAccountView;

    open spec fn view(&self) -> RegistryAccountView {
        RegistryAccountView {
            key: self.key@,
            data: match self.data {
                Some(registry) => Some(registry@),
                None => None,
            },
        }
    }
}

impl RegistryAccount {
    /// The slot at `key`, with nothing in it.
    pub fn empty(key: Key) -> (account: RegistryAccount)
        ensures
            account@ == (RegistryAccountView { key: key@, data: None }),
    {
        RegistryAccount { key, data: None }
    }
}

} // verus!
