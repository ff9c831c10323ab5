use lab_cache::errors::CacheError;
use lab_cache::model::StoreModel;

#[test]
fn round_trip_returns_written_value() {
    let mut store = StoreModel::empty();
    store.set("alpha", "payload");
    assert_eq!(store.lookup("alpha"), Ok("payload".to_string()));
}

#[test]
fn overwrite_returns_second_value() {
    let mut store = StoreModel::empty();
    store.set("k", "first");
    store.set("k", "second");
    assert_eq!(store.lookup("k"), Ok("second".to_string()));
}

#[test]
fn distinct_keys_do_not_interfere() {
    let mut store = StoreModel::empty();
    store.set("a", "one");
    let before = store.lookup("a");
    store.set("b", "two");
    let after = store.lookup("a");
    assert_eq!(before, Ok("one".to_string()));
    assert_eq!(after, Ok("one".to_string()));
    assert_eq!(store.lookup("b"), Ok("two".to_string()));
}

#[test]
fn missing_key_is_service_error() {
    let store = StoreModel::empty();
    assert_eq!(store.lookup("never-written"), Err(CacheError::ServiceError));
}

#[test]
fn key_missing_even_after_other_writes() {
    let mut store = StoreModel::empty();
    store.set("present", "value");
    assert_eq!(store.lookup("absent"), Err(CacheError::ServiceError));
}

#[test]
fn concrete_scenario_my_lab() {
    let mut store = StoreModel::empty();
    store.set("myLab", "{\"name\":\"Test Lab\"}");
    assert_eq!(
        store.lookup("myLab"),
        Ok("{\"name\":\"Test Lab\"}".to_string())
    );
}

#[test]
fn empty_value_round_trips() {
    let mut store = StoreModel::empty();
    store.set("empty", "");
    assert_eq!(store.lookup("empty"), Ok(String::new()));
}
