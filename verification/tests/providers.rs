use middleware_stack::providers::{ProviderError, ProviderManager};

#[test]
fn register_then_get() {
    let mut manager: ProviderManager<u64> = ProviderManager::new();
    assert!(manager.register(1, 10).is_ok());
    assert!(manager.register(2, 20).is_ok());
    assert!(matches!(manager.get(1), Ok(&10)));
    assert!(matches!(manager.get(2), Ok(&20)));
}

#[test]
fn register_twice_is_refused() {
    let mut manager: ProviderManager<u64> = ProviderManager::new();
    assert!(manager.register(1, 10).is_ok());
    assert!(matches!(manager.register(1, 11), Err(ProviderError::AlreadyRegistered)));
    // The refused registration left the registry unchanged.
    assert!(matches!(manager.get(1), Ok(&10)));
}

#[test]
fn get_missing_is_refused() {
    let manager: ProviderManager<u64> = ProviderManager::new();
    assert!(matches!(manager.get(5), Err(ProviderError::NotRegistered)));
}

#[test]
fn get_mut_writes_through() {
    let mut manager: ProviderManager<u64> = ProviderManager::new();
    assert!(manager.register(1, 10).is_ok());
    match manager.get_mut(1) {
        Ok(p) => *p = 99,
        Err(_) => panic!("the provider was registered"),
    }
    assert!(matches!(manager.get(1), Ok(&99)));
}

#[test]
fn get_mut_missing_is_refused() {
    let mut manager: ProviderManager<u64> = ProviderManager::new();
    assert!(matches!(manager.get_mut(1), Err(ProviderError::NotRegistered)));
}

#[test]
fn override_replaces_a_registered_provider() {
    let mut manager: ProviderManager<u64> = ProviderManager::new();
    assert!(manager.register(1, 10).is_ok());
    assert!(manager.override_provider(1, 42).is_ok());
    assert!(matches!(manager.get(1), Ok(&42)));
}

#[test]
fn override_missing_is_refused() {
    let mut manager: ProviderManager<u64> = ProviderManager::new();
    assert!(matches!(manager.override_provider(1, 42), Err(ProviderError::NotRegistered)));
    assert!(matches!(manager.get(1), Err(ProviderError::NotRegistered)));
}

#[test]
fn decorate_applies_to_the_registered_provider() {
    let mut manager: ProviderManager<u64> = ProviderManager::new();
    assert!(manager.register(1, 10).is_ok());
    assert!(manager.decorate_provider(1, |p| p + 7).is_ok());
    assert!(matches!(manager.get(1), Ok(&17)));
}

#[test]
fn decorate_missing_is_refused() {
    let mut manager: ProviderManager<u64> = ProviderManager::new();
    assert!(matches!(
        manager.decorate_provider(1, |p| p + 7),
        Err(ProviderError::NotRegistered)
    ));
}
