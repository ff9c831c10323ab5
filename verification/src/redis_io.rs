use vstd::prelude::*;

verus! {

/// Declares `redis::Client`, the parsed descriptor of the remote service's
/// endpoint. A value of it is opaque here: it is only handed to `connect`.
#[verifier::external_type_specification]
#[verifier::external_body]
pub struct ExClient(redis::Client);

/// Declares `redis::Connection`, a live connection to the remote service,
/// acquired by `connect` and consumed within a single operation.
#[verifier::external_type_specification]
#[verifier::external_body]
pub struct ExConnection(redis::Connection);

/// Declares `redis::RedisError`, the error type of every call into the
/// redis crate. It is opaque here; verified code only maps it to the
/// client's own error kinds.
#[verifier::external_type_specification]
#[verifier::external_body]
pub struct ExRedisError(redis::RedisError);

/// Relies on `redis::Client::get_connection`: it attempts to establish a
/// fresh connection to the endpoint the client was opened with. Whether it
/// succeeds depends on the network and the remote service, so nothing is
/// promised of the outcome.
#[verifier::external_body]
pub(crate) fn connect(client: &redis::Client) -> Result<redis::Connection, redis::RedisError> {
    client.get_connection()
}

/// Relies on `redis::cmd` and `redis::Cmd::exec`: issues one unconditional
/// `SET key value` command over the given connection. Whether the remote
/// service accepts it depends on the service, so nothing is promised of the
/// outcome.
#[verifier::external_body]
pub(crate) fn issue_set(
    conn: &mut redis::Connection,
    key: &str,
    value: &str,
) -> Result<(), redis::RedisError> {
    redis::cmd("SET").arg(key).arg(value).exec(conn)
}

/// Relies on `redis::Commands::get`: issues one `GET key` command over the
/// given connection. The reply depends on the remote service's current
/// state; an absent key yields a nil reply, which fails the conversion to
/// `String` and so comes back as an error. Nothing is promised of the
/// outcome.
#[verifier::external_body]
pub(crate) fn issue_get(
    conn: &mut redis::Connection,
    key: &str,
) -> Result<String, redis::RedisError> {
    redis::Commands::get(conn, key)
}

} // verus!
