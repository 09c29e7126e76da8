//! What holds of the instructions on every input, proved from their
//! definitions.
//!
//! The laws speak of the instructions through `initialize_refusal`,
//! `initialize_effect`, `update_refusal` and `update_effect`, in which the
//! contracts of the instructions are written. An address that comes out of a
//! derivation is a parameter of a law: the law holds whatever was derived.

use vstd::prelude::*;
use vstd::utf8::{is_ascii_chars, is_ascii_chars_encode_utf8};
use crate::address::{derived_view, registry_address};
use crate::error::AuditRegistryError;
use crate::instructions::{
    initialize_effect, initialize_refusal, update_effect, update_refusal, AccountsView,
};
use crate::key::{key_extensionality, Key};
use crate::registry::{uri_len, MetadataInputView, Registry, RegistryView};

verus! {

/// The derivation of a registry address is a function of the authority's
/// key: two searches on the same key end with the same address and the same
/// bump seed, or both end with nothing.
pub proof fn derivation_is_deterministic(
    first_authority: Key,
    second_authority: Key,
    first: Option<(Key, u8)>,
    second: Option<(Key, u8)>,
)
    requires
        first_authority@ == second_authority@,
        derived_view(first) == registry_address(first_authority@),
        derived_view(second) == registry_address(second_authority@),
    ensures
        first == second,
{
    match (first, second) {
        (Some((first_address, _)), Some((second_address, _))) => {
            key_extensionality(first_address, second_address);
        },
        _ => {},
    }
}

/// An initialization that goes through leaves a well-formed registry of the
/// caller in the slot: the given version, the bump seed of the derivation,
/// no URI and a zero checksum.
pub proof fn initialization_creates_a_fresh_registry(
    accounts: AccountsView,
    version: u64,
    derived: Option<(Seq<u8>, u8)>,
)
    requires
        accounts.authority.len() == 32,
        initialize_refusal(accounts, version, derived) is None,
    ensures
        version > 0,
        derived matches Some((address, bump)) && address == accounts.registry.key
            && initialize_effect(accounts, version, derived).registry.data == Some(
            RegistryView::fresh(accounts.authority, version, bump),
        ),
        initialize_effect(accounts, version, derived).registry.data matches Some(registry)
            && registry.well_formed() && registry.metadata_uri.len() == 0 && (forall|i: int|
            0 <= i < 32 ==> registry.metadata_checksum[i] == 0),
{
}

/// Once a registry is initialized, a second initialization by the same
/// caller is refused because the registry exists, whatever version it asks
/// for, and the registry stays as the first one made it.
pub proof fn second_initialization_is_refused(
    accounts: AccountsView,
    first_version: u64,
    second_version: u64,
    derived: Option<(Seq<u8>, u8)>,
)
    requires
        initialize_refusal(accounts, first_version, derived) is None,
    ensures
        ({
            let after = initialize_effect(accounts, first_version, derived);
            &&& initialize_refusal(after, second_version, derived) == Some(
                AuditRegistryError::AlreadyExists,
            )
            &&& initialize_effect(after, second_version, derived) == after
        }),
{
}

/// An update on an empty slot is refused because there is no registry, and
/// the slot stays empty.
pub proof fn update_of_an_empty_slot_is_refused(
    accounts: AccountsView,
    metadata: MetadataInputView,
    rederived: Option<Seq<u8>>,
)
    requires
        accounts.registry.data is None,
    ensures
        update_refusal(accounts, metadata, rederived) == Some(AuditRegistryError::NotFound),
        update_effect(accounts, metadata, rederived) == accounts,
{
}

/// Once an authority has initialized its registry, an update by any other
/// caller is refused as unauthorized, whatever it carries and whatever
/// address that caller's key derives, and the registry stays as it was.
pub proof fn stranger_cannot_update(
    accounts: AccountsView,
    version: u64,
    derived: Option<(Seq<u8>, u8)>,
    stranger: Seq<u8>,
    metadata: MetadataInputView,
    rederived: Option<Seq<u8>>,
)
    requires
        initialize_refusal(accounts, version, derived) is None,
        stranger != accounts.authority,
    ensures
        ({
            let initialized = initialize_effect(accounts, version, derived);
            let attempt = AccountsView { authority: stranger, registry: initialized.registry };
            &&& update_refusal(attempt, metadata, rederived) == Some(
                AuditRegistryError::Unauthorized,
            )
            &&& update_effect(attempt, metadata, rederived) == attempt
        }),
{
}

/// Once an authority has initialized its registry, and the bump seed in it
/// derives the slot's address again, an update by that authority with a URI
/// within the limit goes through: the registry then holds the new URI and
/// checksum, under the version of the initialization.
pub proof fn authority_updates_its_registry(
    accounts: AccountsView,
    version: u64,
    derived: Option<(Seq<u8>, u8)>,
    metadata: MetadataInputView,
)
    requires
        initialize_refusal(accounts, version, derived) is None,
        uri_len(metadata.uri) <= Registry::URI_LIMIT,
    ensures
        ({
            let initialized = initialize_effect(accounts, version, derived);
            let rederived = Some(accounts.registry.key);
            &&& update_refusal(initialized, metadata, rederived) is None
            &&& derived matches Some((_, bump)) && update_effect(
                initialized,
                metadata,
                rederived,
            ).registry.data == Some(
                RegistryView {
                    authority: accounts.authority,
                    version,
                    bump,
                    metadata_uri: metadata.uri,
                    metadata_checksum: metadata.checksum,
                },
            )
        }),
{
}

/// An update, refused or not, keeps the caller, the slot's address and
/// emptiness, and the authority, version and bump seed of the registry. It
/// replaces the URI and the checksum together or leaves both.
pub proof fn update_changes_the_metadata_only(
    accounts: AccountsView,
    metadata: MetadataInputView,
    rederived: Option<Seq<u8>>,
)
    ensures
        ({
            let after = update_effect(accounts, metadata, rederived);
            &&& after.authority == accounts.authority
            &&& after.registry.key == accounts.registry.key
            &&& after.registry.data is Some <==> accounts.registry.data is Some
            &&& (after.registry.data, accounts.registry.data) matches (Some(new), Some(old)) ==> {
                &&& new.authority == old.authority
                &&& new.version == old.version
                &&& new.bump == old.bump
                &&& if update_refusal(accounts, metadata, rederived) is None {
                    new.metadata_uri == metadata.uri && new.metadata_checksum == metadata.checksum
                } else {
                    new.metadata_uri == old.metadata_uri && new.metadata_checksum
                        == old.metadata_checksum
                }
            }
        }),
{
}

/// An update, refused or not, leaves a well-formed registry well-formed.
pub proof fn update_keeps_the_registry_well_formed(
    accounts: AccountsView,
    metadata: MetadataInputView,
    rederived: Option<Seq<u8>>,
)
    requires
        accounts.registry.data matches Some(registry) && registry.well_formed(),
        metadata.checksum.len() == 32,
    ensures
        update_effect(accounts, metadata, rederived).registry.data matches Some(registry)
            && registry.well_formed(),
{
}

/// Where every other check passes, an update is refused for its URI exactly
/// when the URI takes more than `Registry::URI_LIMIT` bytes.
pub proof fn uri_limit_is_exact(
    accounts: AccountsView,
    metadata: MetadataInputView,
    rederived: Option<Seq<u8>>,
)
    requires
        accounts.registry.data matches Some(registry) && registry.authority == accounts.authority,
        rederived == Some(accounts.registry.key),
    ensures
        uri_len(metadata.uri) > 200 ==> update_refusal(accounts, metadata, rederived) == Some(
            AuditRegistryError::UriTooLong,
        ),
        uri_len(metadata.uri) <= 200 ==> update_refusal(accounts, metadata, rederived) is None,
{
}

/// A URI of ASCII characters takes one byte for each character.
pub proof fn ascii_uri_len(uri: Seq<char>)
    requires
        is_ascii_chars(uri),
    ensures
        uri_len(uri) == uri.len(),
{
    is_ascii_chars_encode_utf8(uri);
}

} // verus!
