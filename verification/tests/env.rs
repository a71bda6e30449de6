//! The scope table.

use uwu::env::Env;

#[test]
fn new_table_is_empty() {
    let env = Env::new();
    assert!(!env.has(&"f".to_string()));
    assert!(!env.has(&String::new()));
}

#[test]
fn added_names_are_held() {
    let mut env = Env::new();
    env.add("f".to_string());
    assert!(env.has(&"f".to_string()));
    assert!(!env.has(&"g".to_string()));
    assert!(!env.has(&"F".to_string()));
    env.add("g".to_string());
    assert!(env.has(&"f".to_string()));
    assert!(env.has(&"g".to_string()));
}

#[test]
fn adding_twice_changes_nothing() {
    let mut env = Env::new();
    env.add("f".to_string());
    env.add("f".to_string());
    assert!(env.has(&"f".to_string()));
    assert!(!env.has(&"ff".to_string()));
}
