use illthorn::{Registry, SessionConfig, SessionError};

fn config(name: &str, port: u16) -> SessionConfig {
    SessionConfig::new(name.to_string(), "127.0.0.1".to_string(), port)
}

#[test]
fn address_joins_host_and_port() {
    assert_eq!(config("a", 4000).address(), "127.0.0.1:4000");
    assert_eq!(config("a", 0).address(), "127.0.0.1:0");
    assert_eq!(config("a", 65535).address(), "127.0.0.1:65535");
    let c = SessionConfig::new("b".to_string(), "game.example.com".to_string(), 7);
    assert_eq!(c.address(), "game.example.com:7");
}

#[test]
fn error_messages() {
    assert_eq!(
        SessionError::DuplicateSession("a".to_string()).message(),
        "Session a already exists"
    );
    assert_eq!(
        SessionError::SessionNotFound("b".to_string()).message(),
        "Session b not found"
    );
    assert_eq!(
        SessionError::ConnectionFailure("refused".to_string()).message(),
        "refused"
    );
    assert_eq!(
        SessionError::TransportError("broken pipe".to_string()).message(),
        "broken pipe"
    );
    assert_eq!(
        SessionError::DiscoveryError("denied".to_string()).message(),
        "denied"
    );
}

#[test]
fn empty_registry_admits_and_finds_nothing() {
    let r: Registry<u32> = Registry::new();
    let name = "a".to_string();
    assert!(!r.contains(&name));
    assert_eq!(r.check_available(&name), Ok(()));
    assert_eq!(
        r.lookup(&name),
        Err(SessionError::SessionNotFound("a".to_string()))
    );
}

#[test]
fn second_create_of_a_name_is_duplicate() {
    let mut r: Registry<u32> = Registry::new();
    let name = "a".to_string();
    assert_eq!(r.check_available(&name), Ok(()));
    assert_eq!(r.complete_create(config("a", 1000), Ok(1)), Ok(config("a", 1000)));
    assert_eq!(
        r.check_available(&name),
        Err(SessionError::DuplicateSession("a".to_string()))
    );
    assert_eq!(r.lookup(&name), Ok(&1));
}

#[test]
fn racing_creates_leave_the_later_connection() {
    let mut r: Registry<u32> = Registry::new();
    let name = "a".to_string();
    assert!(r.check_available(&name).is_ok());
    assert!(r.check_available(&name).is_ok());
    assert!(r.complete_create(config("a", 1000), Ok(1)).is_ok());
    assert!(r.complete_create(config("a", 1000), Ok(2)).is_ok());
    assert_eq!(r.lookup(&name), Ok(&2));
    assert_eq!(r.remove(&name), Some(2));
    assert!(!r.contains(&name));
}

#[test]
fn failed_connect_registers_nothing() {
    let mut r: Registry<u32> = Registry::new();
    let got = r.complete_create(config("a", 1000), Err("connection refused".to_string()));
    assert_eq!(
        got,
        Err(SessionError::ConnectionFailure("connection refused".to_string()))
    );
    assert!(!r.contains(&"a".to_string()));
}

#[test]
fn insert_replaces_and_returns_the_old_handle() {
    let mut r: Registry<u32> = Registry::new();
    assert_eq!(r.insert("a".to_string(), 1), None);
    assert_eq!(r.insert("b".to_string(), 2), None);
    assert_eq!(r.insert("a".to_string(), 3), Some(1));
    assert_eq!(r.lookup(&"a".to_string()), Ok(&3));
    assert_eq!(r.lookup(&"b".to_string()), Ok(&2));
}

#[test]
fn remove_is_once_only() {
    let mut r: Registry<u32> = Registry::new();
    r.insert("a".to_string(), 1);
    r.insert("b".to_string(), 2);
    assert_eq!(r.remove(&"a".to_string()), Some(1));
    assert_eq!(r.remove(&"a".to_string()), None);
    assert_eq!(r.lookup(&"b".to_string()), Ok(&2));
}

#[test]
fn clear_empties_the_registry() {
    let mut r: Registry<u32> = Registry::new();
    r.insert("a".to_string(), 1);
    r.insert("b".to_string(), 2);
    r.clear();
    assert!(!r.contains(&"a".to_string()));
    assert!(!r.contains(&"b".to_string()));
    assert!(r.check_available(&"a".to_string()).is_ok());
}
