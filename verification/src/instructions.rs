//! The two instructions of the registry: initialization by an authority, and
//! the update of the metadata by that same authority.
//!
//! Each instruction receives the caller's key and the storage slot that the
//! host resolved for the call. Nothing in the slot is taken on trust: its
//! address is held against the one that the caller's key derives, and its
//! authority against the caller. Every check precedes the first write, so a
//! refused instruction leaves the slot as it was.

use vstd::prelude::*;
use crate::address::{
    address_view, create_registry_address, derived_view, find_registry_address, registry_address,
    registry_address_with_bump,
};
use crate::error::AuditRegistryError;
use crate::key::Key;
use crate::registry::{
    uri_len, MetadataInput, MetadataInputView, Registry, RegistryAccount, RegistryAccountView,
    RegistryView,
};

verus! {

/// The accounts of an initialization.
#[derive(Clone, Debug, PartialEq, Eq)]
pub struct InitializeRegistry {
    /// The caller, who becomes the authority of the registry.
    pub authority: Key,
    /// The slot that is to hold the registry.
    pub registry: RegistryAccount,
}

/// The accounts of an update of the metadata.
#[derive(Clone, Debug, PartialEq, Eq)]
pub struct UpdateMetadata {
    /// The caller.
    pub authority: Key,
    /// The slot that holds the registry.
    pub registry: RegistryAccount,
}

/// The accounts of an instruction as a mathematical value: the caller and the
/// slot.
pub struct AccountsView {
    pub authority: Seq<u8>,
    pub registry: RegistryAccountView,
}

impl View for InitializeRegistry {
    type V = AccountsView;

    open spec fn view(&self) -> AccountsView {
        AccountsView { authority: self.authority@, registry: self.registry@ }
    }
}

impl View for UpdateMetadata {
    type V = AccountsView;

    open spec fn view(&self) -> AccountsView {
        AccountsView { authority: self.authority@, registry: self.registry@ }
    }
}

/// Why an initialization is refused, `None` where it goes through. `derived`
/// is the address that the caller's key derives, with its bump seed.
///
/// The checks, in their order: the slot is the one at the derived address;
/// the slot is empty; the version is positive.
pub open spec fn initialize_refusal(
    accounts: AccountsView,
    version: u64,
    derived: Option<(Seq<u8>, u8)>,
) -> Option<AuditRegistryError> {
    if !(derived matches Some((address, _)) && address == accounts.registry.key) {
        Some(AuditRegistryError::AddressBindingInvalid)
    } else if accounts.registry.data is Some {
        Some(AuditRegistryError::AlreadyExists)
    } else if version == 0 {
        Some(AuditRegistryError::InvalidVersion)
    } else {
        None
    }
}

/// The accounts after an initialization: with a fresh registry in the slot
/// where it goes through, unchanged where it is refused.
pub open spec fn initialize_effect(
    accounts: AccountsView,
    version: u64,
    derived: Option<(Seq<u8>, u8)>,
) -> AccountsView {
    match (initialize_refusal(accounts, version, derived), derived) {
        (None, Some((_, bump))) => AccountsView {
            authority: accounts.authority,
            registry: RegistryAccountView {
                key: accounts.registry.key,
                data: Some(RegistryView::fresh(accounts.authority, version, bump)),
            },
        },
        _ => accounts,
    }
}

/// Why an update is refused, `None` where it goes through. `rederived` is
/// the address that the caller's key derives with the bump seed stored in
/// the registry.
///
/// The checks, in their order: the slot holds a registry; the caller is its
/// authority; the slot is the one at the rederived address; the URI is
/// within its limit.
pub open spec fn update_refusal(
    accounts: AccountsView,
    metadata: MetadataInputView,
    rederived: Option<Seq<u8>>,
) -> Option<AuditRegistryError> {
    match accounts.registry.data {
        None => Some(AuditRegistryError::NotFound),
        Some(registry) => {
            if registry.authority != accounts.authority {
                Some(AuditRegistryError::Unauthorized)
            } else if rederived != Some(accounts.registry.key) {
                Some(AuditRegistryError::AddressBindingInvalid)
            } else if uri_len(metadata.uri) > Registry::URI_LIMIT {
                Some(AuditRegistryError::UriTooLong)
            } else {
                None
            }
        },
    }
}

/// The accounts after an update: with the URI and the checksum replaced
/// together where it goes through, unchanged where it is refused.
pub open spec fn update_effect(
    accounts: AccountsView,
    metadata: MetadataInputView,
    rederived: Option<Seq<u8>>,
) -> AccountsView {
    match (update_refusal(accounts, metadata, rederived), accounts.registry.data) {
        (None, Some(registry)) => AccountsView {
            authority: accounts.authority,
            registry: RegistryAccountView {
                key: accounts.registry.key,
                data: Some(registry.with_metadata(metadata)),
            },
        },
        _ => accounts,
    }
}

/// The address that the caller's key derives with the bump seed of the
/// registry in the slot; `None` where the slot is empty or the two derive no
/// address.
pub open spec fn stored_binding(accounts: AccountsView) -> Option<Seq<u8>> {
    match accounts.registry.data {
        Some(registry) => registry_address_with_bump(accounts.authority, registry.bump),
        None => None,
    }
}

/// Initializes the registry of the caller, given the address and bump seed
/// that the caller's key derives.
///
/// Refused with `AddressBindingInvalid` where nothing was derived or the slot
/// is not at the derived address; else with `AlreadyExists` where the slot
/// holds a registry; else with `InvalidVersion` where the version is zero.
/// Otherwise the slot receives a fresh registry of the caller.
pub fn initialize_registry_with(
    ctx: &mut InitializeRegistry,
    version: u64,
    derived: Option<(Key, u8)>,
) -> (result: Result<(), AuditRegistryError>)
    ensures
        match initialize_refusal(old(ctx)@, version, derived_view(derived)) {
            Some(error) => result == Err::<(), AuditRegistryError>(error) && *final(ctx) == *old(ctx),
            None => result is Ok,
        },
        final(ctx)@ == initialize_effect(old(ctx)@, version, derived_view(derived)),
{
    let bump = match derived {
        Some((address, bump)) => {
            if address != ctx.registry.key {
                return Err(AuditRegistryError::AddressBindingInvalid);
            }
            bump
        },
        None => {
            return Err(AuditRegistryError::AddressBindingInvalid);
        },
    };
    if ctx.registry.data.is_some() {
        return Err(AuditRegistryError::AlreadyExists);
    }
    if version == 0 {
        return Err(AuditRegistryError::InvalidVersion);
    }
    ctx.registry.data = Some(Registry::new(ctx.authority, version, bump));
    Ok(())
}

/// Initializes the registry of the caller in the slot at the address that
/// the caller's key derives.
///
/// On success the slot holds a registry of the caller with the given version,
/// the bump seed of the derivation, an empty URI and a zero checksum, and the
/// slot's address is the one that the caller's key and that bump seed derive.
pub fn initialize_registry(ctx: &mut InitializeRegistry, version: u64) -> (result: Result<
    (),
    AuditRegistryError,
>)
    ensures
        match initialize_refusal(old(ctx)@, version, registry_address(old(ctx).authority@)) {
            Some(error) => result == Err::<(), AuditRegistryError>(error) && *final(ctx) == *old(ctx),
            None => result is Ok,
        },
        final(ctx)@ == initialize_effect(old(ctx)@, version, registry_address(old(ctx).authority@)),
        result is Ok ==> stored_binding(final(ctx)@) == Some(final(ctx).registry.key@),
        result is Ok ==> (final(ctx).registry.data matches Some(registry)
            && registry@.well_formed()),
{
    let derived = find_registry_address(&ctx.authority);
    initialize_registry_with(ctx, version, derived)
}

/// Replaces the metadata of the registry in the slot, given the address that
/// the caller's key derives with the bump seed stored there.
///
/// Refused with `NotFound` where the slot is empty; else with `Unauthorized`
/// where the caller is not the authority of the registry; else with
/// `AddressBindingInvalid` where nothing was rederived or the slot is not at
/// the rederived address; else with `UriTooLong` where the URI takes more
/// than `Registry::URI_LIMIT` bytes. Otherwise the URI and the checksum of
/// the registry are replaced, and nothing else.
pub fn update_metadata_with(
    ctx: &mut UpdateMetadata,
    payload: MetadataInput,
    rederived: Option<Key>,
) -> (result: Result<(), AuditRegistryError>)
    ensures
        match update_refusal(old(ctx)@, payload@, address_view(rederived)) {
            Some(error) => result == Err::<(), AuditRegistryError>(error) && *final(ctx) == *old(ctx),
            None => result is Ok,
        },
        final(ctx)@ == update_effect(old(ctx)@, payload@, address_view(rederived)),
{
    match &ctx.registry.data {
        None => {
            return Err(AuditRegistryError::NotFound);
        },
        Some(registry) => {
            if registry.authority != ctx.authority {
                return Err(AuditRegistryError::Unauthorized);
            }
        },
    }
    match rederived {
        Some(address) => {
            if address != ctx.registry.key {
                return Err(AuditRegistryError::AddressBindingInvalid);
            }
        },
        None => {
            return Err(AuditRegistryError::AddressBindingInvalid);
        },
    }
    if payload.uri.as_str().as_bytes().len() > Registry::URI_LIMIT {
        return Err(AuditRegistryError::UriTooLong);
    }
    match &mut ctx.registry.data {
        Some(registry) => {
            registry.metadata_uri = payload.uri;
            registry.metadata_checksum = payload.checksum;
        },
        None => {},
    }
    Ok(())
}

/// Replaces the metadata of the registry in the slot.
///
/// Only the authority of the registry gets through, and only on the slot at
/// the address that its key and the stored bump seed derive. The version, the
/// authority and the bump seed stay as they are.
pub fn update_metadata(ctx: &mut UpdateMetadata, payload: MetadataInput) -> (result: Result<
    (),
    AuditRegistryError,
>)
    ensures
        match update_refusal(old(ctx)@, payload@, stored_binding(old(ctx)@)) {
            Some(error) => result == Err::<(), AuditRegistryError>(error) && *final(ctx) == *old(ctx),
            None => result is Ok,
        },
        final(ctx)@ == update_effect(old(ctx)@, payload@, stored_binding(old(ctx)@)),
        old(ctx).registry.data matches Some(before) && before@.well_formed() ==> (final(
            ctx
        ).registry.data matches Some(after) && after@.well_formed()),
{
    let rederived = match &ctx.registry.data {
        Some(registry) => create_registry_address(&ctx.authority, registry.bump),
        None => None,
    };
    update_metadata_with(ctx, payload, rederived)
}

} // verus!
