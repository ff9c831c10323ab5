use vstd::prelude::*;

use crate::errors::CacheError;
use crate::redis_io::connect;
use crate::redis_io::issue_get;
use crate::redis_io::issue_set;

verus! {

/// The cache client: a stateless accessor over a remote key-value service.
///
/// It holds a non-owning reference to the opened endpoint descriptor and
/// nothing else: no session, no pooled connection, no in-memory entries.
/// Each operation independently acquires a fresh connection, issues one
/// command, and releases the connection on every exit path.
pub struct CacheClient<'a> {
    pub redis_client: &'a redis::Client,
}

/// Maps the outcome of one `SET` command to what the caller of a "put"
/// observes: an accepted command is acknowledged with `true`, and a command
/// the remote service failed is reported as `ServiceError`, exactly.
pub fn ack_of_set(outcome: Result<(), redis::RedisError>) -> (r: Result<bool, CacheError>)
    ensures
        outcome is Ok ==> (r matches Ok(ack) && ack == true),
        outcome is Err ==> (r matches Err(e) && e == CacheError::ServiceError),
{
    match outcome {
        Ok(_) => Ok(true),
        Err(_) => Err(CacheError::ServiceError),
    }
}

/// Maps the outcome of one `GET` command to what the caller of a "get"
/// observes: a reply is passed through byte for byte, and a failed command
/// (which includes a read of an absent key) is reported as `ServiceError`,
/// exactly.
pub fn value_of_get(outcome: Result<String, redis::RedisError>) -> (r: Result<
    String,
    CacheError,
>)
    ensures
        outcome matches Ok(v) ==> (r matches Ok(w) && w == v),
        outcome is Err ==> (r matches Err(e) && e == CacheError::ServiceError),
{
    match outcome {
        Ok(value) => Ok(value),
        Err(_) => Err(CacheError::ServiceError),
    }
}

/// Completes a "put" from the result of the connection attempt: a failed
/// attempt propagates as `ConnectionError` and no command is issued; over an
/// established connection the single `SET` command decides between an
/// acknowledgement and `ServiceError`.
pub fn complete_put(
    conn_res: Result<redis::Connection, redis::RedisError>,
    key: &str,
    value: &str,
) -> (r: Result<bool, CacheError>)
    ensures
        conn_res is Err ==> (r matches Err(e) && e == CacheError::ConnectionError),
        conn_res is Ok ==> ((r matches Ok(ack) && ack == true) || (r matches Err(e) && e
            == CacheError::ServiceError)),
{
    match conn_res {
        Ok(mut conn) => ack_of_set(issue_set(&mut conn, key, value)),
        Err(_) => Err(CacheError::ConnectionError),
    }
}

/// Completes a "get" from the result of the connection attempt: a failed
/// attempt propagates as `ConnectionError` and no command is issued; over an
/// established connection the single `GET` command decides between the
/// observed value and `ServiceError`.
pub fn complete_get(conn_res: Result<redis::Connection, redis::RedisError>, key: &str) -> (r:
    Result<String, CacheError>)
    ensures
        conn_res is Err ==> (r matches Err(e) && e == CacheError::ConnectionError),
        conn_res is Ok ==> (r is Ok || (r matches Err(e) && e == CacheError::ServiceError)),
{
    match conn_res {
        Ok(mut conn) => value_of_get(issue_get(&mut conn, key)),
        Err(_) => Err(CacheError::ConnectionError),
    }
}

impl<'a> CacheClient<'a> {
    /// Writes `value` under `key`: acquires a fresh connection, issues one
    /// unconditional overwriting `SET`, and releases the connection. A
    /// connection that could not be established is `ConnectionError`; a
    /// command the service failed is `ServiceError`; an accepted write is
    /// acknowledged with `true`.
    pub fn add_to_cache(&self, key: &str, value: &str) -> (r: Result<bool, CacheError>)
        ensures
            r matches Ok(ack) ==> ack == true,
            r matches Err(e) ==> (e == CacheError::ConnectionError || e
                == CacheError::ServiceError),
    {
        complete_put(connect(self.redis_client), key, value)
    }

    /// Reads the value currently associated with `key`: acquires a fresh
    /// connection, issues one `GET`, and releases the connection. A
    /// connection that could not be established is `ConnectionError`; a
    /// failed command, including a read of a key never written, is
    /// `ServiceError`.
    pub fn get_cached(&self, key: &str) -> (r: Result<String, CacheError>)
        ensures
            r matches Err(e) ==> (e == CacheError::ConnectionError || e
                == CacheError::ServiceError),
    {
        complete_get(connect(self.redis_client), key)
    }
}

} // verus!
