use lab_cache::cache::ack_of_set;
use lab_cache::cache::complete_get;
use lab_cache::cache::complete_put;
use lab_cache::cache::value_of_get;
use lab_cache::cache::CacheClient;
use lab_cache::errors::CacheError;

fn rejected() -> redis::RedisError {
    redis::RedisError::from((redis::ErrorKind::UnexpectedReturnType, "rejected"))
}

#[test]
fn unreachable_endpoint_put_is_connection_error() {
    let client = redis::Client::open("redis://127.0.0.1:1/").unwrap();
    let cache = CacheClient {
        redis_client: &client,
    };
    assert_eq!(
        cache.add_to_cache("myLab", "{\"name\":\"Test Lab\"}"),
        Err(CacheError::ConnectionError)
    );
}

#[test]
fn unreachable_endpoint_get_is_connection_error() {
    let client = redis::Client::open("redis://127.0.0.1:1/").unwrap();
    let cache = CacheClient {
        redis_client: &client,
    };
    assert_eq!(cache.get_cached("myLab"), Err(CacheError::ConnectionError));
}

#[test]
fn accepted_set_is_acknowledged() {
    assert_eq!(ack_of_set(Ok(())), Ok(true));
}

#[test]
fn failed_set_is_service_error() {
    assert_eq!(ack_of_set(Err(rejected())), Err(CacheError::ServiceError));
}

#[test]
fn get_reply_passes_through() {
    let reply = "{\"name\":\"Test Lab\"}".to_string();
    assert_eq!(value_of_get(Ok(reply.clone())), Ok(reply));
}

#[test]
fn failed_get_is_service_error() {
    assert_eq!(
        value_of_get(Err(rejected())),
        Err(CacheError::ServiceError)
    );
}

#[test]
fn put_propagates_failed_connection() {
    assert_eq!(
        complete_put(Err(rejected()), "myLab", "value"),
        Err(CacheError::ConnectionError)
    );
}

#[test]
fn get_propagates_failed_connection() {
    assert_eq!(
        complete_get(Err(rejected()), "myLab"),
        Err(CacheError::ConnectionError)
    );
}
