use audit_registry::address::find_registry_address;
use audit_registry::{
    initialize_registry, initialize_registry_with, AuditRegistryError, InitializeRegistry, Key,
    Registry, RegistryAccount,
};

fn fresh_accounts(authority: [u8; 32]) -> InitializeRegistry {
    let authority = Key::new(authority);
    let (address, _) = find_registry_address(&authority).unwrap();
    InitializeRegistry { authority, registry: RegistryAccount::empty(address) }
}

#[test]
fn initialize_with_version_five() {
    let mut ctx = fresh_accounts([1u8; 32]);
    assert_eq!(initialize_registry(&mut ctx, 5), Ok(()));
    let registry = ctx.registry.data.unwrap();
    assert_eq!(registry.version, 5);
    assert_eq!(registry.authority.to_bytes(), [1u8; 32]);
    assert_eq!(registry.bump, 254);
    assert_eq!(registry.metadata_uri, "");
    assert_eq!(registry.metadata_checksum, [0u8; 32]);
}

#[test]
fn initialize_with_version_zero_is_invalid() {
    let mut ctx = fresh_accounts([1u8; 32]);
    assert_eq!(initialize_registry(&mut ctx, 0), Err(AuditRegistryError::InvalidVersion));
    assert_eq!(ctx.registry.data, None);
    assert_eq!(ctx, fresh_accounts([1u8; 32]));
}

#[test]
fn initialize_with_greatest_version() {
    let mut ctx = fresh_accounts([2u8; 32]);
    assert_eq!(initialize_registry(&mut ctx, u64::MAX), Ok(()));
    let registry = ctx.registry.data.unwrap();
    assert_eq!(registry.version, u64::MAX);
    assert_eq!(registry.bump, 255);
}

#[test]
fn initialize_twice_already_exists() {
    let mut ctx = fresh_accounts([1u8; 32]);
    assert_eq!(initialize_registry(&mut ctx, 3), Ok(()));
    let after_first = ctx.clone();
    assert_eq!(initialize_registry(&mut ctx, 3), Err(AuditRegistryError::AlreadyExists));
    assert_eq!(ctx, after_first);
    assert_eq!(initialize_registry(&mut ctx, 9), Err(AuditRegistryError::AlreadyExists));
    assert_eq!(ctx, after_first);
    assert_eq!(initialize_registry(&mut ctx, 0), Err(AuditRegistryError::AlreadyExists));
    assert_eq!(ctx, after_first);
    assert_eq!(ctx.registry.data.unwrap().version, 3);
}

#[test]
fn initialize_in_a_foreign_slot_is_refused() {
    let authority = Key::new([1u8; 32]);
    let (foreign, _) = find_registry_address(&Key::new([2u8; 32])).unwrap();
    let mut ctx = InitializeRegistry { authority, registry: RegistryAccount::empty(foreign) };
    let before = ctx.clone();
    assert_eq!(initialize_registry(&mut ctx, 1), Err(AuditRegistryError::AddressBindingInvalid));
    assert_eq!(ctx, before);
    let mut ctx = InitializeRegistry { authority, registry: RegistryAccount::empty(authority) };
    assert_eq!(initialize_registry(&mut ctx, 1), Err(AuditRegistryError::AddressBindingInvalid));
    assert_eq!(ctx.registry.data, None);
}

#[test]
fn initialize_checks_the_slot_before_the_version() {
    let authority = Key::new([1u8; 32]);
    let mut ctx = InitializeRegistry { authority, registry: RegistryAccount::empty(authority) };
    assert_eq!(initialize_registry(&mut ctx, 0), Err(AuditRegistryError::AddressBindingInvalid));
}

#[test]
fn initialize_with_a_given_derivation() {
    let authority = Key::new([3u8; 32]);
    let slot = Key::new([4u8; 32]);
    let mut ctx = InitializeRegistry { authority, registry: RegistryAccount::empty(slot) };
    assert_eq!(initialize_registry_with(&mut ctx, 7, Some((slot, 200))), Ok(()));
    assert_eq!(
        ctx.registry.data,
        Some(Registry {
            authority,
            version: 7,
            bump: 200,
            metadata_uri: String::new(),
            metadata_checksum: [0u8; 32],
        })
    );
    assert_eq!(ctx.registry.key.to_bytes(), [4u8; 32]);
    assert_eq!(ctx.authority.to_bytes(), [3u8; 32]);
}

#[test]
fn initialize_with_no_derivation_is_refused() {
    let authority = Key::new([3u8; 32]);
    let slot = Key::new([4u8; 32]);
    let mut ctx = InitializeRegistry { authority, registry: RegistryAccount::empty(slot) };
    assert_eq!(
        initialize_registry_with(&mut ctx, 7, None),
        Err(AuditRegistryError::AddressBindingInvalid)
    );
    assert_eq!(ctx.registry.data, None);
    assert_eq!(
        initialize_registry_with(&mut ctx, 7, Some((authority, 200))),
        Err(AuditRegistryError::AddressBindingInvalid)
    );
    assert_eq!(ctx.registry.data, None);
}

#[test]
fn initialize_with_a_given_derivation_each_refusal() {
    let authority = Key::new([3u8; 32]);
    let slot = Key::new([4u8; 32]);
    let mut ctx = InitializeRegistry { authority, registry: RegistryAccount::empty(slot) };
    assert_eq!(
        initialize_registry_with(&mut ctx, 0, Some((slot, 1))),
        Err(AuditRegistryError::InvalidVersion)
    );
    assert_eq!(ctx.registry.data, None);
    assert_eq!(initialize_registry_with(&mut ctx, 1, Some((slot, 1))), Ok(()));
    assert_eq!(
        initialize_registry_with(&mut ctx, 2, Some((slot, 1))),
        Err(AuditRegistryError::AlreadyExists)
    );
    assert_eq!(ctx.registry.data.as_ref().unwrap().version, 1);
    assert_eq!(
        initialize_registry_with(&mut ctx, 2, Some((authority, 1))),
        Err(AuditRegistryError::AddressBindingInvalid)
    );
    assert_eq!(ctx.registry.data.as_ref().unwrap().version, 1);
}

#[test]
fn registry_space() {
    assert_eq!(Registry::URI_LIMIT, 200);
    assert_eq!(Registry::LEN, 285);
}

#[test]
fn new_registry_has_no_metadata() {
    let registry = Registry::new(Key::new([8u8; 32]), 12, 34);
    assert_eq!(registry.authority.to_bytes(), [8u8; 32]);
    assert_eq!(registry.version, 12);
    assert_eq!(registry.bump, 34);
    assert_eq!(registry.metadata_uri.len(), 0);
    assert_eq!(registry.metadata_checksum, [0u8; 32]);
}

#[test]
fn error_messages() {
    assert_eq!(AuditRegistryError::InvalidVersion.message(), "Version must be greater than zero");
    assert_eq!(AuditRegistryError::UriTooLong.message(), "Metadata URI exceeds limit");
    let all = [
        AuditRegistryError::InvalidVersion,
        AuditRegistryError::UriTooLong,
        AuditRegistryError::AlreadyExists,
        AuditRegistryError::NotFound,
        AuditRegistryError::Unauthorized,
        AuditRegistryError::AddressBindingInvalid,
    ];
    for (i, first) in all.iter().enumerate() {
        assert!(!first.message().is_empty());
        for second in all.iter().skip(i + 1) {
            assert_ne!(first, second);
            assert_ne!(first.message(), second.message());
        }
    }
}
