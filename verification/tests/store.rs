use lazypass::error::SecretError;
use lazypass::store::get_salt;
use lazypass::store::SaltStore;
use lazypass::vault::ObfuscatedSalt;

#[test]
fn new_store_is_empty() {
    let store = SaltStore::new();
    assert!(!store.is_initialized());
    assert!(store.get().is_none());
}

#[test]
fn get_salt_on_an_empty_store_is_uninitialized() {
    let store = SaltStore::new();
    match get_salt(&store) {
        Err(error) => assert_eq!(error, SecretError::VaultUninitialized),
        Ok(_) => panic!("an empty store revealed a salt"),
    }
}

#[test]
fn set_then_get_salt_reveals_the_pepper() {
    let mut store = SaltStore::new();
    assert_eq!(store.set(ObfuscatedSalt::new("pepper123")), Ok(()));
    assert!(store.is_initialized());
    assert!(store.get().is_some());
    let secret = get_salt(&store).expect("the store holds a vault");
    assert_eq!(secret.expose_secret(), "pepper123");
}

#[test]
fn second_set_fails_with_double_initialization() {
    let mut store = SaltStore::new();
    assert_eq!(store.set(ObfuscatedSalt::new("first pepper")), Ok(()));
    assert_eq!(
        store.set(ObfuscatedSalt::new("second pepper")),
        Err(SecretError::DoubleInitialization)
    );
    let secret = get_salt(&store).expect("the store holds a vault");
    assert_eq!(secret.expose_secret(), "first pepper");
    assert_eq!(
        store.set(ObfuscatedSalt::new("third pepper")),
        Err(SecretError::DoubleInitialization)
    );
    assert_eq!(get_salt(&store).expect("still there").expose_secret(), "first pepper");
}
