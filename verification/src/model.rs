use vstd::prelude::*;

use crate::errors::CacheError;

verus! {

/// Mathematical model of the remote key-value service's state: a finite map
/// from keys to values, both taken as character sequences.
///
/// The client itself is stateless; the consistency it exposes to callers
/// (read-after-write, overwrite, isolation of distinct keys) is the behaviour
/// of a well-behaved service, which these spec functions pin down. The
/// executable [`StoreModel`] below implements them and is the reference a
/// test can run against without a live service.
pub open spec fn store_set(
    store: Map<Seq<char>, Seq<char>>,
    key: Seq<char>,
    value: Seq<char>,
) -> Map<Seq<char>, Seq<char>> {
    store.insert(key, value)
}

/// What a "get" command observes: the value currently associated with `key`,
/// or nothing when the key is absent.
pub open spec fn store_lookup(store: Map<Seq<char>, Seq<char>>, key: Seq<char>) -> Option<
    Seq<char>,
> {
    if store.dom().contains(key) {
        Some(store[key])
    } else {
        None
    }
}

/// Read-after-write consistency: for every non-empty key, a read immediately
/// after a write of that key returns exactly the written value.
pub proof fn lemma_read_after_write(
    store: Map<Seq<char>, Seq<char>>,
    key: Seq<char>,
    value: Seq<char>,
)
    requires
        key.len() > 0,
    ensures
        store_lookup(store_set(store, key, value), key) == Some(value),
{
}

/// Overwrite: writing a key twice leaves the second value in place; a read
/// after both writes returns the second value.
pub proof fn lemma_overwrite(
    store: Map<Seq<char>, Seq<char>>,
    key: Seq<char>,
    first: Seq<char>,
    second: Seq<char>,
)
    ensures
        store_lookup(store_set(store_set(store, key, first), key, second), key) == Some(second),
{
}

/// Isolation of distinct keys: a write to one key leaves what a read of any
/// other key observes unchanged.
pub proof fn lemma_distinct_keys_isolated(
    store: Map<Seq<char>, Seq<char>>,
    read_key: Seq<char>,
    written_key: Seq<char>,
    value: Seq<char>,
)
    requires
        read_key != written_key,
    ensures
        store_lookup(store_set(store, written_key, value), read_key) == store_lookup(
            store,
            read_key,
        ),
{
}

/// A key never written is absent: a read of it observes nothing, which the
/// client reports as a service-level failure.
pub proof fn lemma_missing_key(store: Map<Seq<char>, Seq<char>>, key: Seq<char>)
    requires
        !store.dom().contains(key),
    ensures
        store_lookup(store, key) is None,
{
}

/// The state a sequence of writes leaves behind, applied in order: a later
/// write to the same key shadows an earlier one.
pub closed spec fn entries_map(entries: Seq<(String, String)>) -> Map<Seq<char>, Seq<char>>
    decreases entries.len(),
{
    if entries.len() == 0 {
        Map::<Seq<char>, Seq<char>>::empty()
    } else {
        store_set(entries_map(entries.drop_last()), entries.last().0@, entries.last().1@)
    }
}

/// Executable reference model of a reachable, well-behaved service: it keeps
/// the writes it has accepted and answers each read from them, with exactly
/// the `store_set`/`store_lookup` semantics the client assumes of the remote
/// side. A test can run the client's scenarios against it without a live
/// service.
pub struct StoreModel {
    entries: Vec<(String, String)>,
}

impl View for StoreModel {
    type V = Map<Seq<char>, Seq<char>>;

    closed spec fn view(&self) -> Map<Seq<char>, Seq<char>> {
        entries_map(self.entries@)
    }
}

impl StoreModel {
    /// A service holding no entries: every key is absent.
    pub fn empty() -> (r: Self)
        ensures
            r@ == Map::<Seq<char>, Seq<char>>::empty(),
    {
        StoreModel { entries: Vec::new() }
    }

    /// Accepts one unconditional `SET`: after the call the model's state is
    /// the old state with `key` now associated to `value`, any prior value
    /// overwritten.
    pub fn set(&mut self, key: &str, value: &str)
        ensures
            final(self)@ == store_set(old(self)@, key@, value@),
    {
        let owned_key = key.to_owned();
        let owned_value = value.to_owned();
        self.entries.push((owned_key, owned_value));
        proof {
            assert(self.entries@.drop_last() =~= old(self).entries@);
        }
    }

    /// Answers one `GET` as the client expects a well-behaved service to: a
    /// present key returns exactly its current value, and an absent key is a
    /// failed command, reported as `ServiceError`.
    pub fn lookup(&self, key: &str) -> (r: Result<String, CacheError>)
        ensures
            store_lookup(self@, key@) matches Some(v) ==> (r matches Ok(w) && w@ == v),
            store_lookup(self@, key@) is None ==> (r matches Err(e) && e
                == CacheError::ServiceError),
    {
        let needle: String = key.to_owned();
        let mut i: usize = self.entries.len();
        proof {
            assert(self.entries@.take(i as int) =~= self.entries@);
        }
        while i > 0
            invariant
                i <= self.entries@.len(),
                needle@ == key@,
                store_lookup(entries_map(self.entries@), key@) == store_lookup(
                    entries_map(self.entries@.take(i as int)),
                    key@,
                ),
            decreases i,
        {
            i = i - 1;
            proof {
                assert(self.entries@.take(i as int + 1).drop_last() =~= self.entries@.take(
                    i as int,
                ));
                assert(self.entries@.take(i as int + 1).last() == self.entries@[i as int]);
            }
            let entry = &self.entries[i];
            if entry.0 == needle {
                return Ok(entry.1.clone());
            }
        }
        proof {
            assert(self.entries@.take(0) =~= Seq::<(String, String)>::empty());
        }
        Err(CacheError::ServiceError)
    }
}

} // verus!
