use policy_engine::strmap::StrMap;
use policy_engine::value::{take_entry, Value};

#[test]
fn lookup_finds_the_first_match() {
    let mut m: StrMap<i64> = StrMap::new();
    assert_eq!(m.len(), 0);
    assert!(!m.contains_key("a"));
    m.push("a".to_string(), 1);
    m.push("b".to_string(), 2);
    m.push("a".to_string(), 3);
    assert_eq!(m.len(), 3);
    assert_eq!(m.get("a"), Some(&1));
    assert_eq!(m.get("b"), Some(&2));
    assert_eq!(m.get("c"), None);
    assert!(m.contains_key("a"));
    assert!(!m.contains_key("ab"));
}

#[test]
fn take_entry_removes_only_the_first_match() {
    let mut entries = vec![
        ("x".to_string(), Value::Int(1)),
        ("y".to_string(), Value::Int(2)),
        ("x".to_string(), Value::Int(3)),
    ];
    assert_eq!(take_entry(&mut entries, "x"), Some(Value::Int(1)));
    assert_eq!(
        entries,
        vec![
            ("y".to_string(), Value::Int(2)),
            ("x".to_string(), Value::Int(3)),
        ]
    );
    assert_eq!(take_entry(&mut entries, "z"), None);
    assert_eq!(entries.len(), 2);
}
