use partition_core::registry::RegistryError;
use partition_core::registry::ServiceDescriptor;
use partition_core::registry::ServiceRegistry;

#[test]
fn build_with_unique_identifiers_succeeds() {
    let reg = ServiceRegistry::build(vec![
        ServiceDescriptor { id: 1000, name: "alpha" },
        ServiceDescriptor { id: 2000, name: "beta" },
    ])
    .unwrap();
    assert_eq!(reg.len(), 2);
    assert_eq!(reg.id_at(0), 1000);
    assert_eq!(reg.id_at(1), 2000);
    assert_eq!(reg.name_at(0), "alpha");
    assert_eq!(reg.name_at(1), "beta");
}

#[test]
fn build_with_duplicate_identifier_is_rejected() {
    let r = ServiceRegistry::build(vec![
        ServiceDescriptor { id: 7, name: "first" },
        ServiceDescriptor { id: 9, name: "second" },
        ServiceDescriptor { id: 7, name: "third" },
    ]);
    assert_eq!(r.err(), Some(RegistryError::DuplicateIdentifier));
}

#[test]
fn build_empty_registry_succeeds() {
    let reg = ServiceRegistry::build(Vec::new()).unwrap();
    assert_eq!(reg.len(), 0);
    assert_eq!(reg.lookup(1), None);
}

#[test]
fn lookup_finds_exactly_the_registered_ids() {
    let reg = ServiceRegistry::build(vec![
        ServiceDescriptor { id: 1000, name: "alpha" },
        ServiceDescriptor { id: 2000, name: "beta" },
    ])
    .unwrap();
    assert_eq!(reg.lookup(1000), Some(0));
    assert_eq!(reg.lookup(2000), Some(1));
    assert_eq!(reg.lookup(3000), None);
}
