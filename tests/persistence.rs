use nova_cloud_backend::persistence::load;
use nova_cloud_backend::registry::{Registry, UserRecord};

fn s(text: &str) -> String {
    text.to_string()
}

fn record(u: &str, c: &str, id: &str) -> UserRecord {
    UserRecord { username: s(u), credential: s(c), container_id: s(id) }
}

#[test]
fn snapshot_round_trip_keeps_every_record() {
    let mut reg = Registry::new();
    let users = [("ann", "p1", "c-ann"), ("ben", "p2", "c-ben"), ("cat", "p3", "c-cat")];
    for (u, c, id) in users.iter() {
        reg.finish_register(s(u), s(c), Some(s(id)));
    }
    let saved = reg.snapshot();
    assert_eq!(saved.len(), 3);
    // A restart: only the snapshot survives.
    drop(reg);
    let (restored, discarded) = load(Some(saved));
    assert!(!discarded);
    assert_eq!(restored.len(), 3);
    for (u, c, id) in users.iter() {
        assert_eq!(restored.resolve(&s(u)), Ok(s(id)));
        assert_eq!(restored.login(&s(u), &s(c)), Ok(()));
    }
}

#[test]
fn unparsable_snapshot_yields_empty_registry() {
    let (reg, discarded) = load(None);
    assert!(!discarded);
    assert_eq!(reg.len(), 0);
    assert!(!reg.is_registered(&s("ann")));
}

#[test]
fn snapshot_with_duplicate_names_is_treated_as_corrupt() {
    let (reg, discarded) = load(Some(vec![record("ann", "a", "c1"), record("ann", "b", "c2")]));
    assert!(discarded);
    assert_eq!(reg.len(), 0);
    assert!(Registry::from_records(vec![record("ann", "a", "c1"), record("ann", "b", "c2")]).is_none());
}

#[test]
fn snapshot_with_unbound_record_is_treated_as_corrupt() {
    let (reg, discarded) = load(Some(vec![record("ann", "a", "c1"), record("ben", "b", "")]));
    assert!(discarded);
    assert_eq!(reg.len(), 0);
    let (reg2, discarded2) = load(Some(vec![record("", "a", "c1")]));
    assert!(discarded2);
    assert_eq!(reg2.len(), 0);
}

#[test]
fn empty_snapshot_loads_empty_registry() {
    let (reg, discarded) = load(Some(Vec::new()));
    assert!(!discarded);
    assert_eq!(reg.len(), 0);
    assert_eq!(reg.snapshot().len(), 0);
}

#[test]
fn valid_records_load_as_given() {
    let reg = Registry::from_records(vec![record("ann", "a", "c1"), record("ben", "b", "c2")]).unwrap();
    assert_eq!(reg.len(), 2);
    assert_eq!(reg.resolve(&s("ben")), Ok(s("c2")));
    assert!(reg.authenticate(&s("ann"), &s("a")));
}

#[test]
fn reordered_snapshot_restores_the_same_users() {
    let mut reg = Registry::new();
    reg.finish_register(s("zed"), s("p1"), Some(s("c-zed")));
    reg.finish_register(s("amy"), s("p2"), Some(s("c-amy")));
    let mut saved = reg.snapshot();
    saved.reverse();
    let (restored, discarded) = load(Some(saved));
    assert!(!discarded);
    assert_eq!(restored.len(), 2);
    assert_eq!(restored.resolve(&s("zed")), Ok(s("c-zed")));
    assert_eq!(restored.login(&s("amy"), &s("p2")), Ok(()));
}
