use sentinel::session::SessionMap;

fn sorted(mut keys: Vec<String>) -> Vec<String> {
    keys.sort();
    keys
}

#[test]
fn new_session_map_is_empty() {
    let map = SessionMap::new();
    assert!(map.keys().is_empty());
    assert_eq!(map.get("anything"), None);
    assert_eq!(map.get(""), None);
}

#[test]
fn session_set_then_get_returns_the_value() {
    let mut map = SessionMap::new();
    map.set(String::from("theme"), b"dark".to_vec());
    assert_eq!(map.get("theme"), Some(&b"dark".to_vec()));
    assert_eq!(map.get("Theme"), None);
    assert_eq!(map.get("dark"), None);
}

#[test]
fn session_set_replaces_the_value_and_keeps_one_key() {
    let mut map = SessionMap::new();
    map.set(String::from("theme"), b"dark".to_vec());
    map.set(String::from("theme"), b"light".to_vec());
    assert_eq!(map.get("theme"), Some(&b"light".to_vec()));
    assert_eq!(map.keys(), vec![String::from("theme")]);
}

#[test]
fn session_keys_lists_every_key_once() {
    let mut map = SessionMap::new();
    map.set(String::from("b"), vec![2]);
    map.set(String::from("a"), vec![1]);
    map.set(String::from("c"), vec![3]);
    map.set(String::from("a"), vec![4]);
    assert_eq!(sorted(map.keys()), vec!["a", "b", "c"]);
    assert_eq!(map.get("a"), Some(&vec![4]));
    assert_eq!(map.get("b"), Some(&vec![2]));
    assert_eq!(map.get("c"), Some(&vec![3]));
}

#[test]
fn session_delete_forgets_the_key_only() {
    let mut map = SessionMap::new();
    map.set(String::from("a"), vec![1]);
    map.set(String::from("b"), vec![2]);
    map.set(String::from("c"), vec![3]);
    map.delete("b");
    assert_eq!(map.get("b"), None);
    assert_eq!(map.get("a"), Some(&vec![1]));
    assert_eq!(map.get("c"), Some(&vec![3]));
    assert_eq!(sorted(map.keys()), vec!["a", "c"]);
}

#[test]
fn session_delete_of_a_missing_key_changes_nothing() {
    let mut map = SessionMap::new();
    map.set(String::from("a"), vec![1]);
    map.delete("z");
    map.delete("");
    assert_eq!(map.keys(), vec![String::from("a")]);
    assert_eq!(map.get("a"), Some(&vec![1]));
}

#[test]
fn session_key_can_be_set_again_after_delete() {
    let mut map = SessionMap::new();
    map.set(String::from("a"), vec![1]);
    map.delete("a");
    assert!(map.keys().is_empty());
    map.set(String::from("a"), vec![9, 9]);
    assert_eq!(map.get("a"), Some(&vec![9, 9]));
    assert_eq!(map.keys().len(), 1);
}

#[test]
fn session_keeps_empty_keys_and_empty_values() {
    let mut map = SessionMap::new();
    map.set(String::new(), Vec::new());
    assert_eq!(map.get(""), Some(&Vec::new()));
    assert_eq!(map.keys(), vec![String::new()]);
}
