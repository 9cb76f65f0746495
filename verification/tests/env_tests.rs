use runpod_client::{EnvVar, StringMap};

fn var(k: &str, v: &str) -> EnvVar {
    EnvVar { key: k.to_string(), value: v.to_string() }
}

#[test]
fn insert_then_get_gives_the_value() {
    let mut m = StringMap::new();
    m.insert("A".to_string(), "1".to_string());
    m.insert("B".to_string(), "2".to_string());
    assert_eq!(m.get(&"A".to_string()), Some(&"1".to_string()));
    assert_eq!(m.get(&"B".to_string()), Some(&"2".to_string()));
    assert_eq!(m.get(&"C".to_string()), None);
    assert_eq!(m.len(), 2);
}

#[test]
fn insert_replaces_in_place() {
    let mut m = StringMap::new();
    m.insert("A".to_string(), "1".to_string());
    m.insert("B".to_string(), "2".to_string());
    m.insert("A".to_string(), "3".to_string());
    assert_eq!(m.len(), 2);
    assert_eq!(
        m.entries(),
        &vec![("A".to_string(), "3".to_string()), ("B".to_string(), "2".to_string())]
    );
}

#[test]
fn env_map_last_variable_wins() {
    let env = vec![var("X", "old"), var("Y", "y"), var("X", "new")];
    let m = StringMap::from_env_vars(&env);
    assert_eq!(m.len(), 2);
    assert_eq!(m.get(&"X".to_string()), Some(&"new".to_string()));
    assert_eq!(m.get(&"Y".to_string()), Some(&"y".to_string()));
}

#[test]
fn empty_and_default_maps_are_empty() {
    assert_eq!(StringMap::new().len(), 0);
    assert_eq!(StringMap::default().len(), 0);
    assert!(StringMap::from_env_vars(&vec![]).entries().is_empty());
}

#[test]
fn clone_keeps_pairs() {
    let m = StringMap::from_env_vars(&vec![var("K", "V"), var("L", "W")]);
    let c = m.clone();
    assert_eq!(c.entries(), m.entries());
}
