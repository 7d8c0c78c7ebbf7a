use attestation_core::error::Error;
use attestation_core::reference_value::ReferenceValue;
use attestation_core::store::{
    store_overwrite_law, store_unknown_key_law, MemStore, Store, StoreType,
};

fn rv(name: &str, version: u64, digest: &str) -> ReferenceValue {
    ReferenceValue {
        name: name.to_string(),
        version,
        value: vec![digest.to_string()],
        expiration: 1735689600,
    }
}

#[test]
fn set_then_overwrite_returns_prior_and_get_sees_latest() {
    let mut s = StoreType::LocalFs.to_store().unwrap();
    let v1 = rv("kernel", 1, "digest-aaa");
    let v2 = rv("kernel", 2, "digest-bbb");
    assert_eq!(s.set("kernel".to_string(), v1.clone()).unwrap(), None);
    assert_eq!(s.set("kernel".to_string(), v2.clone()).unwrap(), Some(v1));
    assert_eq!(s.get("kernel").unwrap(), Some(v2));
}

#[test]
fn overwrite_law_on_fresh_store() {
    let mut s = MemStore::new();
    let (first, second, read) =
        store_overwrite_law(&mut s, "firmware".to_string(), rv("firmware", 1, "x"), rv("firmware", 2, "y"));
    assert_eq!(first, None);
    assert_eq!(second.unwrap().version, 1);
    assert_eq!(read.unwrap().version, 2);
}

#[test]
fn unknown_key_reads_none_not_error() {
    let s = MemStore::new();
    assert_eq!(store_unknown_key_law(&s, "never-written").unwrap(), None);
    let mut s = MemStore::new();
    s.set("present".to_string(), rv("present", 1, "z")).unwrap();
    assert_eq!(s.get("absent").unwrap(), None);
}

#[test]
fn independent_names_do_not_interfere() {
    let mut s = MemStore::new();
    assert_eq!(s.set("a".to_string(), rv("a", 1, "da")).unwrap(), None);
    assert_eq!(s.set("b".to_string(), rv("b", 7, "db")).unwrap(), None);
    assert_eq!(s.set("a".to_string(), rv("a", 2, "da2")).unwrap(), Some(rv("a", 1, "da")));
    assert_eq!(s.get("b").unwrap(), Some(rv("b", 7, "db")));
    assert_eq!(s.get("a").unwrap(), Some(rv("a", 2, "da2")));
}

#[test]
fn selector_parses_known_and_rejects_unknown() {
    assert!(matches!(StoreType::from_name("LocalFs"), Ok(StoreType::LocalFs)));
    assert!(matches!(StoreType::from_name("Database"), Err(Error::UnknownStoreType)));
    assert!(matches!(StoreType::from_name(""), Err(Error::UnknownStoreType)));
}

#[test]
fn multi_digest_records_survive_a_round_trip() {
    let mut s = MemStore::new();
    let record = ReferenceValue {
        name: "bios".to_string(),
        version: 3,
        value: vec!["sha-one".to_string(), "sha-two".to_string()],
        expiration: -1,
    };
    s.set("bios".to_string(), record.clone()).unwrap();
    assert_eq!(s.get("bios").unwrap(), Some(record));
}
