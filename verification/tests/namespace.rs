use vibe_codebase::hash::DefinitionHash;
use vibe_codebase::namespace::{split_dotted, DefinitionPath, NamespacePath, NamespaceStore};

fn path(segments: &[&str]) -> NamespacePath {
    NamespacePath(segments.iter().map(|s| s.to_string()).collect())
}

#[test]
fn split_dotted_follows_the_dots() {
    assert_eq!(split_dotted("a.b.c"), vec!["a", "b", "c"]);
    assert_eq!(split_dotted("abc"), vec!["abc"]);
    assert_eq!(split_dotted(""), vec![""]);
    assert_eq!(split_dotted("."), vec!["", ""]);
    assert_eq!(split_dotted("a..b"), vec!["a", "", "b"]);
    assert_eq!(split_dotted(".a"), vec!["", "a"]);
    assert_eq!(split_dotted("a."), vec!["a", ""]);
    assert_eq!(split_dotted("é.ü"), vec!["é", "ü"]);
}

#[test]
fn namespace_path_from_str() {
    assert_eq!(NamespacePath::from_str(""), NamespacePath::root());
    assert_eq!(NamespacePath::from_str("Math"), path(&["Math"]));
    assert_eq!(NamespacePath::from_str("Math.Linear"), path(&["Math", "Linear"]));
    assert_eq!(NamespacePath::root(), path(&[]));
}

#[test]
fn namespace_path_parent() {
    assert_eq!(NamespacePath::root().parent(), None);
    assert_eq!(path(&["A"]).parent(), Some(NamespacePath::root()));
    assert_eq!(path(&["A", "B", "C"]).parent(), Some(path(&["A", "B"])));
}

#[test]
fn namespace_path_same_and_duplicate() {
    let p = path(&["A", "B"]);
    assert!(p.same(&p.duplicate()));
    assert_eq!(p.duplicate(), p);
    assert!(!p.same(&path(&["A"])));
    assert!(!p.same(&path(&["A", "C"])));
    assert!(NamespacePath::root().same(&path(&[])));
}

#[test]
fn definition_path_from_str() {
    let p = DefinitionPath::from_str("Math.square").unwrap();
    assert_eq!(p.namespace, path(&["Math"]));
    assert_eq!(p.name, "square");
    let q = DefinitionPath::from_str("foo").unwrap();
    assert_eq!(q.namespace, NamespacePath::root());
    assert_eq!(q.name, "foo");
    let r = DefinitionPath::from_str("A.B.c").unwrap();
    assert_eq!(r, DefinitionPath::new(path(&["A", "B"]), "c".to_string()));
    assert_eq!(DefinitionPath::from_str(""), None);
    assert_eq!(DefinitionPath::from_str("Math."), None);
}

#[test]
fn definition_path_same() {
    let p = DefinitionPath::new(path(&["A"]), "x".to_string());
    assert!(p.same(&p.duplicate()));
    assert!(!p.same(&DefinitionPath::new(path(&["A"]), "y".to_string())));
    assert!(!p.same(&DefinitionPath::new(path(&["B"]), "x".to_string())));
    assert!(!p.same(&DefinitionPath::new(path(&[]), "x".to_string())));
}

#[test]
fn store_lookup_is_exact() {
    let mut store = NamespaceStore::new();
    let at = |text: &str| DefinitionPath::from_str(text).unwrap();
    assert!(store.get_definition_by_path(&at("x")).is_none());
    store.add_definition(at("A.x"), DefinitionHash([1; 32]));
    store.add_definition(at("y"), DefinitionHash([2; 32]));
    assert_eq!(store.get_definition_by_path(&at("A.x")).unwrap().hash, DefinitionHash([1; 32]));
    assert_eq!(store.get_definition_by_path(&at("A.x")).unwrap().path, at("A.x"));
    assert_eq!(store.get_definition_by_path(&at("y")).unwrap().hash, DefinitionHash([2; 32]));
    assert!(store.get_definition_by_path(&at("x")).is_none());
    assert!(store.get_definition_by_path(&at("A.y")).is_none());
    assert!(store.get_definition_by_path(&at("A.B.x")).is_none());
}

#[test]
fn store_keeps_the_latest_hash_of_a_path() {
    let mut store = NamespaceStore::new();
    let at = |text: &str| DefinitionPath::from_str(text).unwrap();
    store.add_definition(at("x"), DefinitionHash([1; 32]));
    store.add_definition(at("y"), DefinitionHash([2; 32]));
    store.add_definition(at("x"), DefinitionHash([3; 32]));
    assert_eq!(store.get_definition_by_path(&at("x")).unwrap().hash, DefinitionHash([3; 32]));
    assert_eq!(store.get_definition_by_path(&at("y")).unwrap().hash, DefinitionHash([2; 32]));
}
