use genserver::message::Message;
use genserver::registry::{Registry, RegistryError};

#[test]
fn lookup_absent_name_is_not_found() {
    let registry = Registry::new();
    let r = registry.lookup::<u8, u8>(&String::from("nobody"));
    assert!(matches!(r, Err(RegistryError::NotFound)));
    assert!(!registry.exist(&String::from("nobody")));
}

#[test]
fn register_then_lookup_round_trip() {
    let mut registry = Registry::new();
    let (tx, mut rx) = tokio::sync::mpsc::channel::<Message<u8, u16>>(4);
    registry.register(String::from("worker"), tx);
    assert!(registry.exist(&String::from("worker")));

    let conn = registry.lookup::<u8, u16>(&String::from("worker")).unwrap();
    // a send through the looked-up connection lands in the registered mailbox
    conn.endpoint().try_send(Message::new_event(9)).unwrap();
    let got = rx.try_recv().unwrap();
    assert_eq!(got.unwrap(), 9);
}

#[test]
fn lookup_with_wrong_types_is_wrong_type() {
    let mut registry = Registry::new();
    let (tx, _rx) = tokio::sync::mpsc::channel::<Message<u8, u16>>(4);
    registry.register(String::from("typed"), tx);

    let ok = registry.lookup::<u8, u16>(&String::from("typed"));
    assert!(ok.is_ok());
    let wrong = registry.lookup::<u32, u32>(&String::from("typed"));
    assert!(matches!(wrong, Err(RegistryError::WrongType)));
}

#[test]
fn register_overwrites_existing_entry() {
    let mut registry = Registry::new();
    let (tx1, mut rx1) = tokio::sync::mpsc::channel::<Message<u8, u16>>(4);
    let (tx2, mut rx2) = tokio::sync::mpsc::channel::<Message<u8, u16>>(4);
    registry.register(String::from("last"), tx1);
    registry.register(String::from("last"), tx2);

    let conn = registry.lookup::<u8, u16>(&String::from("last")).unwrap();
    conn.endpoint().try_send(Message::new_event(5)).unwrap();
    assert!(rx1.try_recv().is_err());
    assert_eq!(rx2.try_recv().unwrap().unwrap(), 5);
}

#[test]
fn unregister_is_idempotent() {
    let mut registry = Registry::new();
    let (tx, _rx) = tokio::sync::mpsc::channel::<Message<u8, u16>>(4);
    registry.register(String::from("gone"), tx);
    assert!(registry.exist(&String::from("gone")));
    registry.unregister(&String::from("gone"));
    assert!(!registry.exist(&String::from("gone")));
    registry.unregister(&String::from("gone"));
    assert!(!registry.exist(&String::from("gone")));
    assert!(matches!(
        registry.lookup::<u8, u16>(&String::from("gone")),
        Err(RegistryError::NotFound)
    ));
}
