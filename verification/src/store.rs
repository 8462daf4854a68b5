//! The off-chain indexed store capability: a write-only key/value sink from
//! the publisher's point of view. A write replaces whatever the key held;
//! the publisher never reads entries back. [`MemStore`] is an in-memory
//! implementation that records every write, for exercising the publish path
//! outside a host runtime.

use vstd::prelude::*;

verus! {

/// The off-chain indexed key/value store, write-only from the publisher's
/// side. `contents` is the mapping the store currently holds and
/// `write_count` the number of writes it has accepted.
pub trait OffchainStore {
    /// The key/value mapping the store currently holds.
    spec fn contents(&self) -> Map<Seq<u8>, Seq<u8>>;

    /// How many writes the store has accepted.
    spec fn write_count(&self) -> nat;

    /// Writes `value` under `key`, replacing any previous value.
    fn set(&mut self, key: &[u8], value: &[u8])
        ensures
            final(self).contents() == old(self).contents().insert(key@, value@),
            final(self).write_count() == old(self).write_count() + 1,
    ;
}

/// The mapping held after applying the writes in `entries` in order: later
/// writes to a key override earlier ones.
pub open spec fn entries_map(entries: Seq<(Seq<u8>, Seq<u8>)>) -> Map<Seq<u8>, Seq<u8>>
    decreases entries.len(),
{
    if entries.len() == 0 {
        Map::empty()
    } else {
        entries_map(entries.drop_last()).insert(entries.last().0, entries.last().1)
    }
}

/// An in-memory store that keeps the full write log: entry `k` of the log is
/// the `k`-th write accepted. Its contents are the log's writes applied in
/// order.
pub struct MemStore {
    pub log: Vec<(Vec<u8>, Vec<u8>)>,
}

/// The write log as a sequence of byte-sequence pairs.
pub open spec fn log_view(log: Seq<(Vec<u8>, Vec<u8>)>) -> Seq<(Seq<u8>, Seq<u8>)> {
    log.map_values(|e: (Vec<u8>, Vec<u8>)| (e.0@, e.1@))
}

impl MemStore {
    /// An empty store: nothing held, no writes accepted.
    pub fn new() -> (r: MemStore)
        ensures
            r.contents() == Map::<Seq<u8>, Seq<u8>>::empty(),
            r.write_count() == 0,
    {
        let r = MemStore { log: Vec::new() };
        proof {
            assert(log_view(r.log@) =~= Seq::<(Seq<u8>, Seq<u8>)>::empty());
        }
        r
    }

    /// The number of writes accepted so far.
    pub fn writes(&self) -> (r: usize)
        ensures
            r == self.write_count(),
    {
        self.log.len()
    }

    /// The `k`-th accepted write, as it was handed in.
    pub fn write_at(&self, k: usize) -> (r: (Vec<u8>, Vec<u8>))
        requires
            k < self.write_count(),
        ensures
            (r.0@, r.1@) == log_view(self.log@)[k as int],
    {
        let (key, value) = &self.log[k];
        (key.clone(), value.clone())
    }

    /// The value currently held under `key`, or `None` if the key was never
    /// written.
    pub fn get(&self, key: &[u8]) -> (r: Option<Vec<u8>>)
        ensures
            match r {
                Some(v) => self.contents().contains_key(key@) && v@ == self.contents()[key@],
                None => !self.contents().contains_key(key@),
            },
    {
        let mut j: usize = self.log.len();
        proof {
            assert(log_view(self.log@).take(j as int) =~= log_view(self.log@));
        }
        while j > 0
            invariant
                j <= self.log@.len(),
                entries_map(log_view(self.log@)).contains_key(key@) == entries_map(
                    log_view(self.log@).take(j as int),
                ).contains_key(key@),
                entries_map(log_view(self.log@)).contains_key(key@) ==> entries_map(
                    log_view(self.log@).take(j as int),
                )[key@] == entries_map(log_view(self.log@))[key@],
            decreases j,
        {
            j = j - 1;
            let (candidate, value) = &self.log[j];
            proof {
                let full = log_view(self.log@);
                assert(full.take(j as int + 1).drop_last() =~= full.take(j as int));
                assert(full.take(j as int + 1).last() == full[j as int]);
            }
            if bytes_equal(candidate.as_slice(), key) {
                return Some(value.clone());
            }
        }
        proof {
            assert(log_view(self.log@).take(0) =~= Seq::<(Seq<u8>, Seq<u8>)>::empty());
        }
        None
    }
}

impl OffchainStore for MemStore {
    open spec fn contents(&self) -> Map<Seq<u8>, Seq<u8>> {
        entries_map(log_view(self.log@))
    }

    open spec fn write_count(&self) -> nat {
        self.log@.len()
    }

    fn set(&mut self, key: &[u8], value: &[u8]) {
        let mut key_copy: Vec<u8> = Vec::new();
        key_copy.extend_from_slice(key);
        let mut value_copy: Vec<u8> = Vec::new();
        value_copy.extend_from_slice(value);
        self.log.push((key_copy, value_copy));
        proof {
            assert(log_view(self.log@).drop_last() =~= log_view(old(self).log@));
            assert(log_view(self.log@).last() == (key@, value@));
        }
    }
}

/// Compares two byte slices for equality.
pub fn bytes_equal(a: &[u8], b: &[u8]) -> (r: bool)
    ensures
        r == (a@ == b@),
{
    if a.len() != b.len() {
        proof {
            assert(a@ != b@);
        }
        return false;
    }
    let mut j: usize = 0;
    while j < a.len()
        invariant
            j <= a@.len(),
            a@.len() == b@.len(),
            forall|k: int| 0 <= k < j ==> a@[k] == b@[k],
        decreases a@.len() - j,
    {
        if a[j] != b[j] {
            proof {
                assert(a@[j as int] != b@[j as int]);
            }
            return false;
        }
        j = j + 1;
    }
    proof {
        assert(a@ =~= b@);
    }
    true
}

} // verus!
