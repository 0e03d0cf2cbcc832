use imagio::error::ImagioError;
use imagio::store::MemoryStore;

#[test]
fn read_missing_is_not_found() {
    let s = MemoryStore::new();
    match s.read(&"nope".to_string()) {
        Err(ImagioError::NotFound) => {}
        _ => panic!("expected NotFound"),
    }
}

#[test]
fn write_then_read_returns_the_bytes() {
    let mut s = MemoryStore::new();
    s.write("k".to_string(), vec![1, 2, 3]);
    assert_eq!(s.read(&"k".to_string()).unwrap(), vec![1, 2, 3]);
}

#[test]
fn write_overwrites() {
    let mut s = MemoryStore::new();
    s.write("k".to_string(), vec![1]);
    s.write("k".to_string(), vec![2, 3]);
    assert_eq!(s.read(&"k".to_string()).unwrap(), vec![2, 3]);
}

#[test]
fn exists_reports_presence() {
    let mut s = MemoryStore::new();
    assert!(!s.exists_key(&"k".to_string()));
    s.write("k".to_string(), vec![9]);
    assert!(s.exists_key(&"k".to_string()));
    assert!(!s.exists_key(&"other".to_string()));
}

#[test]
fn delete_removes_and_reports_missing() {
    let mut s = MemoryStore::new();
    s.write("k".to_string(), vec![9]);
    assert!(s.delete(&"k".to_string()).is_ok());
    assert!(!s.exists_key(&"k".to_string()));
    match s.delete(&"k".to_string()) {
        Err(ImagioError::NotFound) => {}
        _ => panic!("expected NotFound"),
    }
}

#[test]
fn independent_keys_do_not_interfere() {
    let mut s = MemoryStore::new();
    s.write("a".to_string(), vec![1]);
    s.write("b".to_string(), vec![2]);
    s.delete(&"a".to_string()).unwrap();
    assert_eq!(s.read(&"b".to_string()).unwrap(), vec![2]);
}
