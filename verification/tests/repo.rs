use bitwarden_desktop_next::repo::MemoryRepo;

#[test]
fn read_gives_back_write() {
    let mut r: MemoryRepo<u32> = MemoryRepo::new();
    assert_eq!(r.get("a"), None);
    r.set("a".to_string(), 1);
    r.set("b".to_string(), 2);
    assert_eq!(r.get("a"), Some(&1));
    assert_eq!(r.get("b"), Some(&2));
    r.set("a".to_string(), 3);
    assert_eq!(r.get("a"), Some(&3));
    assert_eq!(r.len(), 2);
}

#[test]
fn remove_forgets_only_that_key() {
    let mut r: MemoryRepo<String> = MemoryRepo::new();
    r.set("x".to_string(), "one".to_string());
    r.set("y".to_string(), "two".to_string());
    r.remove("x");
    r.remove("missing");
    assert_eq!(r.get("x"), None);
    assert_eq!(r.get("y"), Some(&"two".to_string()));
    assert_eq!(r.len(), 1);
}

#[test]
fn bulk_operations() {
    let mut r: MemoryRepo<u8> = MemoryRepo::new();
    r.set_bulk(vec![("k1".to_string(), 1), ("k2".to_string(), 2), ("k1".to_string(), 9)]);
    assert_eq!(r.get("k1"), Some(&9));
    assert_eq!(r.len(), 2);
    let mut listed: Vec<u8> = r.list().into_iter().copied().collect();
    listed.sort();
    assert_eq!(listed, vec![2, 9]);
    r.remove_bulk(vec!["k1".to_string(), "zz".to_string()]);
    assert_eq!(r.len(), 1);
    r.remove_all();
    assert_eq!(r.len(), 0);
    assert!(r.list().is_empty());
}
