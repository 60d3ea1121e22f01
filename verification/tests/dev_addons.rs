use wealthfolio::dev_addons::{
    register_dev_addon_manifest, unregister_dev_addon_manifest, AddonManifest,
    AddonNetworkPermissions, DevAddonRegistry,
};

fn manifest(id: &str, allowed: &[&str]) -> AddonManifest {
    AddonManifest {
        id: id.to_string(),
        network: Some(AddonNetworkPermissions {
            allowed_hosts: allowed.iter().map(|h| h.to_string()).collect(),
            approved_hosts: Vec::new(),
        }),
    }
}

#[test]
fn registered_manifest_is_found_with_hosts_approved() {
    let mut registry = DevAddonRegistry::new();
    assert!(registry.get("demo").is_none());
    register_dev_addon_manifest(&mut registry, "demo".to_string(), manifest("demo", &["api.example.com", "cdn.example.com"]))
        .unwrap();
    let found = registry.get("demo").unwrap();
    assert_eq!(found.id, "demo");
    let network = found.network.unwrap();
    assert_eq!(network.allowed_hosts, vec!["api.example.com", "cdn.example.com"]);
    assert_eq!(network.approved_hosts, network.allowed_hosts);
    assert!(registry.get("other").is_none());
}

#[test]
fn mismatched_id_is_refused() {
    let mut registry = DevAddonRegistry::default();
    let err = register_dev_addon_manifest(&mut registry, "requested".to_string(), manifest("declared", &[]))
        .unwrap_err();
    assert_eq!(
        err,
        "Dev addon manifest id 'declared' does not match requested addon id 'requested'"
    );
    assert!(registry.get("requested").is_none());
    assert!(registry.get("declared").is_none());
}

#[test]
fn registering_again_replaces_and_unregister_removes() {
    let mut registry = DevAddonRegistry::new();
    register_dev_addon_manifest(&mut registry, "a".to_string(), manifest("a", &["one.test"])).unwrap();
    register_dev_addon_manifest(&mut registry, "b".to_string(), manifest("b", &["two.test"])).unwrap();
    register_dev_addon_manifest(&mut registry, "a".to_string(), manifest("a", &["three.test"])).unwrap();
    assert_eq!(
        registry.get("a").unwrap().network.unwrap().approved_hosts,
        vec!["three.test".to_string()]
    );
    unregister_dev_addon_manifest(&mut registry, "a".to_string());
    assert!(registry.get("a").is_none());
    assert_eq!(registry.get("b").unwrap().id, "b");
    unregister_dev_addon_manifest(&mut registry, "missing".to_string());
    assert!(registry.get("b").is_some());
}

#[test]
fn manifest_without_network_stays_without() {
    let mut registry = DevAddonRegistry::new();
    register_dev_addon_manifest(
        &mut registry,
        "plain".to_string(),
        AddonManifest { id: "plain".to_string(), network: None },
    )
    .unwrap();
    assert!(registry.get("plain").unwrap().network.is_none());
}
