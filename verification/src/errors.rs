use vstd::prelude::*;

verus! {

/// The failure taxonomy at the cache-client boundary.
///
/// Every failure a caller can observe is one of exactly two kinds: either a
/// connection to the remote service could not be established, or the
/// connection succeeded but the command itself failed (which covers remote
/// rejection and, by design, a read of an absent key). The client never
/// retries and never recovers: each kind is surfaced to the caller as is.
#[derive(Clone, Copy, Debug, PartialEq, Eq, Structural)]
pub enum CacheError {
    /// The endpoint could not be reached or a connection could not be
    /// established.
    ConnectionError,
    /// The connection succeeded but the remote command failed.
    ServiceError,
}

} // verus!
