use passvault::vault::{delete_login, find_by_id, insert_login, retrieve_all, LoginData, VaultStore};

fn record(name: &str, username: &str, password: &str) -> LoginData {
    LoginData::new(name.to_string(), username.to_string(), password.to_string())
}

fn ids(store: &VaultStore) -> Vec<usize> {
    retrieve_all(store).iter().map(|r| r.id).collect()
}

#[test]
fn vault_insert_assigns_dense_ids() {
    let mut store = VaultStore::empty();
    insert_login(&mut store, record("a", "a@x", "t1"));
    insert_login(&mut store, record("b", "b@x", "t2"));
    insert_login(&mut store, record("c", "c@x", "t3"));
    assert_eq!(ids(&store), vec![1, 2, 3]);
    assert_eq!(store.count(), 3);
}

#[test]
fn vault_delete_renumbers_later_records() {
    let mut store = VaultStore::empty();
    insert_login(&mut store, record("a", "a@x", "t1"));
    insert_login(&mut store, record("b", "b@x", "t2"));
    insert_login(&mut store, record("c", "c@x", "t3"));
    delete_login(&mut store, 2);
    let rows = retrieve_all(&store);
    assert_eq!(ids(&store), vec![1, 2]);
    assert_eq!(rows[0].name, "a");
    assert_eq!(rows[1].name, "c");
    assert_eq!(rows[1].username, "c@x");
    assert_eq!(rows[1].password, "t3");
    assert_eq!(rows[1].id, 2);
}

#[test]
fn vault_ids_stay_dense_through_any_sequence() {
    let mut store = VaultStore::empty();
    insert_login(&mut store, record("a", "a@x", "t1"));
    insert_login(&mut store, record("b", "b@x", "t2"));
    delete_login(&mut store, 1);
    insert_login(&mut store, record("c", "c@x", "t3"));
    insert_login(&mut store, record("d", "d@x", "t4"));
    delete_login(&mut store, 3);
    delete_login(&mut store, 1);
    let n = store.count();
    assert_eq!(ids(&store), (1..=n).collect::<Vec<usize>>());
}

#[test]
fn vault_delete_of_absent_id_changes_nothing() {
    let mut store = VaultStore::empty();
    insert_login(&mut store, record("a", "a@x", "t1"));
    delete_login(&mut store, 0);
    delete_login(&mut store, 5);
    assert_eq!(ids(&store), vec![1]);
    assert_eq!(retrieve_all(&store)[0].name, "a");
}

#[test]
fn vault_find_by_id_matches_position() {
    let mut store = VaultStore::empty();
    insert_login(&mut store, record("a", "a@x", "t1"));
    insert_login(&mut store, record("b", "b@x", "t2"));
    assert_eq!(find_by_id(&store, 2).unwrap().name, "b");
    assert!(find_by_id(&store, 0).is_none());
    assert!(find_by_id(&store, 3).is_none());
}

#[test]
fn login_new_keeps_fields_and_stamps_a_date() {
    let login = record("site", "user@site", "token");
    assert_eq!(login.id, 0);
    assert_eq!(login.name, "site");
    assert_eq!(login.username, "user@site");
    assert_eq!(login.password, "token");
    assert!(!login.date_modified.is_empty());
}

#[test]
fn login_clone_is_equal() {
    let login = record("site", "user@site", "token");
    let copy = login.clone();
    assert_eq!(copy.name, login.name);
    assert_eq!(copy.username, login.username);
    assert_eq!(copy.date_modified, login.date_modified);
    assert_eq!(copy.password, login.password);
}
