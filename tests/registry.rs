use polydb::error::DbError;
use polydb::registry::ConnectionRegistry;

#[test]
fn disconnecting_an_unknown_name_fails() {
    let mut reg: ConnectionRegistry<u32> = ConnectionRegistry::new();
    assert_eq!(reg.disconnect("nope"), Err(DbError::UnknownConnectionName("nope".to_string())));
    assert!(!reg.contains("nope"));
}

#[test]
fn reconnecting_replaces_the_handle() {
    let mut reg: ConnectionRegistry<u32> = ConnectionRegistry::new();
    reg.connect("main".to_string(), 1);
    reg.connect("other".to_string(), 5);
    reg.connect("main".to_string(), 2);
    assert_eq!(reg.get("main"), Ok(&2));
    assert_eq!(reg.get("other"), Ok(&5));
    assert_eq!(reg.disconnect("main"), Ok(2));
    assert_eq!(reg.get("main"), Err(DbError::UnknownConnectionName("main".to_string())));
    assert_eq!(reg.disconnect("main"), Err(DbError::UnknownConnectionName("main".to_string())));
    assert!(reg.contains("other"));
}
