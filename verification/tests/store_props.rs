use plex_core::store::classify_lookup;
use plex_core::store::classify_removal;
use plex_core::store::classify_write;
use plex_core::store::token_account;
use plex_core::store::token_delete;
use plex_core::store::token_get;
use plex_core::store::token_set;
use plex_core::store::LookupOutcome;
use plex_core::store::RemoveOutcome;
use plex_core::store::StoreFailure;
use plex_core::store::StoreModel;

#[test]
fn account_key_is_fixed() {
    assert_eq!(token_account(), "plex_token");
}

#[test]
fn fresh_namespace_reads_absent() {
    let store = StoreModel::new();
    assert_eq!(store.get("app.one"), None);
}

#[test]
fn set_then_get_round_trips() {
    let mut store = StoreModel::new();
    store.set("app.one", "secret-token".to_string());
    assert_eq!(store.get("app.one"), Some("secret-token".to_string()));
}

#[test]
fn second_set_overwrites_first() {
    let mut store = StoreModel::new();
    store.set("app.one", "first".to_string());
    store.set("app.one", "second".to_string());
    assert_eq!(store.get("app.one"), Some("second".to_string()));
}

#[test]
fn delete_on_absent_entry_succeeds() {
    let mut store = StoreModel::new();
    store.delete("app.one");
    assert_eq!(store.get("app.one"), None);
}

#[test]
fn delete_after_set_removes_entry() {
    let mut store = StoreModel::new();
    store.set("app.one", "secret-token".to_string());
    store.delete("app.one");
    assert_eq!(store.get("app.one"), None);
}

#[test]
fn namespaces_are_independent() {
    let mut store = StoreModel::new();
    store.set("app.one", "one".to_string());
    store.set("app.two", "two".to_string());
    assert_eq!(store.get("app.one"), Some("one".to_string()));
    assert_eq!(store.get("app.two"), Some("two".to_string()));
    store.delete("app.one");
    assert_eq!(store.get("app.one"), None);
    assert_eq!(store.get("app.two"), Some("two".to_string()));
}

#[test]
fn lookup_found_is_success() {
    assert_eq!(
        classify_lookup(LookupOutcome::Found("tok".to_string())),
        Ok(Some("tok".to_string()))
    );
}

#[test]
fn lookup_absent_is_success_without_value() {
    assert_eq!(classify_lookup(LookupOutcome::Absent), Ok(None));
}

#[test]
fn lookup_failure_is_store_failure() {
    assert_eq!(
        classify_lookup(LookupOutcome::Failure("keychain locked".to_string())),
        Err(StoreFailure {
            message: "keychain locked".to_string()
        })
    );
}

#[test]
fn write_failure_is_store_failure() {
    assert_eq!(
        classify_write(Err("permission denied".to_string())),
        Err(StoreFailure {
            message: "permission denied".to_string()
        })
    );
}

#[test]
fn write_success_is_success() {
    assert_eq!(classify_write(Ok(())), Ok(()));
}

#[test]
fn removal_of_stored_secret_is_success() {
    assert_eq!(classify_removal(RemoveOutcome::Removed), Ok(()));
}

#[test]
fn removal_of_absent_secret_is_success() {
    assert_eq!(classify_removal(RemoveOutcome::Absent), Ok(()));
}

#[test]
fn removal_failure_is_store_failure() {
    assert_eq!(
        classify_removal(RemoveOutcome::Failure("keychain locked".to_string())),
        Err(StoreFailure {
            message: "keychain locked".to_string()
        })
    );
}

#[test]
fn os_store_fresh_namespace_reads_absent() {
    assert_eq!(token_get("app.test.fresh"), Ok(None));
}

#[test]
fn os_store_delete_on_absent_entry_succeeds() {
    assert_eq!(token_delete("app.test.delete"), Ok(()));
}

#[test]
fn os_store_set_succeeds() {
    assert_eq!(token_set("app.test.write", "secret-token"), Ok(()));
}
