use greeting_service::registry::{Outcome, Registry};

fn conflict_text(o: &Outcome) -> Option<String> {
    match o {
        Outcome::Created => None,
        Outcome::Conflict(t) => Some(t.clone()),
    }
}

#[test]
fn insert_then_conflicting_insert() {
    let mut reg = Registry::new();
    let first = reg.insert_if_absent(1, "hi".to_string());
    assert!(first.is_created());
    let second = reg.insert_if_absent(1, "bye".to_string());
    assert_eq!(conflict_text(&second), Some("hi".to_string()));
    assert_eq!(reg.get(1), Some("hi".to_string()));
}

#[test]
fn get_before_any_insert_is_absent() {
    let reg = Registry::new();
    assert_eq!(reg.get(1), None);
}

#[test]
fn same_text_again_is_a_conflict() {
    let mut reg = Registry::new();
    assert!(reg.insert_if_absent(4, "hi".to_string()).is_created());
    let again = reg.insert_if_absent(4, "hi".to_string());
    assert_eq!(conflict_text(&again), Some("hi".to_string()));
}

#[test]
fn first_text_stays_after_many_inserts() {
    let mut reg = Registry::new();
    assert!(reg.insert_if_absent(9, "first".to_string()).is_created());
    for t in ["a", "b", "first", "c"] {
        let o = reg.insert_if_absent(9, t.to_string());
        assert_eq!(conflict_text(&o), Some("first".to_string()));
        assert_eq!(reg.get(9), Some("first".to_string()));
    }
}

#[test]
fn exactly_one_insert_creates() {
    let mut reg = Registry::new();
    let texts = ["one", "two", "three", "two", "five"];
    let mut created = 0;
    for t in texts {
        match reg.insert_if_absent(7, t.to_string()) {
            Outcome::Created => created += 1,
            Outcome::Conflict(existing) => assert_eq!(existing, "one"),
        }
    }
    assert_eq!(created, 1);
    assert_eq!(reg.get(7), Some("one".to_string()));
}

#[test]
fn other_ids_are_independent() {
    let mut reg = Registry::new();
    assert!(reg.insert_if_absent(1, "x".to_string()).is_created());
    assert!(reg.insert_if_absent(2, "y".to_string()).is_created());
    assert_eq!(reg.get(1), Some("x".to_string()));
    assert_eq!(reg.get(2), Some("y".to_string()));
    assert_eq!(reg.get(3), None);
}

#[test]
fn get_is_repeatable() {
    let mut reg = Registry::new();
    assert!(reg.insert_if_absent(u32::MAX, "edge".to_string()).is_created());
    let a = reg.get(u32::MAX);
    let b = reg.get(u32::MAX);
    assert_eq!(a, b);
    assert_eq!(a, Some("edge".to_string()));
    assert_eq!(reg.get(0), reg.get(0));
}

#[test]
fn list_all_gives_every_entry_once() {
    let mut reg = Registry::new();
    assert!(reg.list_all().is_empty());
    reg.insert_if_absent(3, "c".to_string());
    reg.insert_if_absent(1, "a".to_string());
    reg.insert_if_absent(2, "b".to_string());
    reg.insert_if_absent(1, "z".to_string());
    let mut all = reg.list_all();
    all.sort();
    assert_eq!(
        all,
        vec![(1, "a".to_string()), (2, "b".to_string()), (3, "c".to_string())]
    );
}
