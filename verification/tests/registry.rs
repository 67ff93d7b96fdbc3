use browser_sessions::error::SessionError;
use browser_sessions::registry::Registry;

#[test]
fn new_registry_is_empty() {
    let registry: Registry<u32> = Registry::new();
    assert_eq!(registry.len(), 0);
    assert!(!registry.contains("sess_1"));
    assert_eq!(registry.lookup("sess_1"), Err(SessionError::NotFound));
}

#[test]
fn register_then_lookup_gives_the_handle() {
    let mut registry: Registry<u32> = Registry::new();
    assert_eq!(registry.register("a".to_string(), 11), Ok(()));
    assert_eq!(registry.register("b".to_string(), 22), Ok(()));
    assert_eq!(registry.lookup("a"), Ok(&11));
    assert_eq!(registry.lookup("b"), Ok(&22));
    assert_eq!(registry.len(), 2);
}

#[test]
fn register_does_not_overwrite() {
    let mut registry: Registry<u32> = Registry::new();
    assert_eq!(registry.register("a".to_string(), 11), Ok(()));
    assert_eq!(registry.register("a".to_string(), 99), Err(99));
    assert_eq!(registry.lookup("a"), Ok(&11));
    assert_eq!(registry.len(), 1);
}

#[test]
fn remove_says_whether_it_removed() {
    let mut registry: Registry<u32> = Registry::new();
    assert_eq!(registry.register("a".to_string(), 11), Ok(()));
    assert_eq!(registry.register("b".to_string(), 22), Ok(()));
    assert_eq!(registry.register("c".to_string(), 33), Ok(()));
    assert!(registry.remove("b"));
    assert!(!registry.remove("b"));
    assert!(!registry.remove("zzz"));
    assert_eq!(registry.lookup("b"), Err(SessionError::NotFound));
    assert_eq!(registry.lookup("a"), Ok(&11));
    assert_eq!(registry.lookup("c"), Ok(&33));
    assert_eq!(registry.len(), 2);
}

#[test]
fn removed_id_can_be_registered_again() {
    let mut registry: Registry<String> = Registry::new();
    assert_eq!(registry.register("a".to_string(), "one".to_string()), Ok(()));
    assert!(registry.remove("a"));
    assert_eq!(registry.register("a".to_string(), "two".to_string()), Ok(()));
    assert_eq!(registry.lookup("a"), Ok(&"two".to_string()));
}

#[test]
fn remove_releases_the_handle() {
    let handle = std::rc::Rc::new(5u8);
    let mut registry: Registry<std::rc::Rc<u8>> = Registry::new();
    assert!(registry.register("a".to_string(), handle.clone()).is_ok());
    assert_eq!(std::rc::Rc::strong_count(&handle), 2);
    let held = registry.lookup("a").unwrap().clone();
    assert_eq!(std::rc::Rc::strong_count(&handle), 3);
    assert!(registry.remove("a"));
    assert_eq!(std::rc::Rc::strong_count(&handle), 2);
    assert_eq!(*held, 5);
}
