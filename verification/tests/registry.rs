use devtunnel::registry::ProcessRegistry;

fn sorted(mut ids: Vec<String>) -> Vec<String> {
    ids.sort();
    ids
}

#[test]
fn registry_starts_empty() {
    let r = ProcessRegistry::new();
    assert_eq!(r.len(), 0);
    assert_eq!(r.get("a"), None);
    assert!(r.tunnel_ids().is_empty());
}

#[test]
fn registry_insert_get_remove() {
    let mut r = ProcessRegistry::new();
    r.insert("a".to_string(), 1);
    r.insert("b".to_string(), 2);
    assert_eq!(r.len(), 2);
    assert_eq!(r.get("a"), Some(1));
    assert_eq!(r.get("b"), Some(2));
    assert_eq!(r.get("c"), None);
    r.remove("a");
    assert_eq!(r.len(), 1);
    assert_eq!(r.get("a"), None);
    assert_eq!(r.get("b"), Some(2));
    r.remove("a");
    r.remove("zzz");
    assert_eq!(r.len(), 1);
    assert_eq!(r.tunnel_ids(), vec!["b".to_string()]);
}

#[test]
fn registry_holds_no_tunnel_twice() {
    let mut r = ProcessRegistry::new();
    r.insert("a".to_string(), 1);
    r.insert("b".to_string(), 2);
    r.insert("a".to_string(), 3);
    assert_eq!(r.len(), 2);
    assert_eq!(r.get("a"), Some(3));
    assert_eq!(sorted(r.tunnel_ids()), vec!["a".to_string(), "b".to_string()]);
    r.remove("a");
    assert_eq!(r.get("a"), None);
    assert_eq!(r.len(), 1);
}
