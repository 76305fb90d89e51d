//! What the host keeps under byte keys, and what it answers when guest code
//! reads and writes it.

use crate::status::{decode_length, decode_status, Error, ReturnCode, LAST_DEFINED, SENTINEL};
use vstd::prelude::*;
use vstd::slice::slice_to_vec;

verus! {

/// The status with which the host answers a read of a key that holds
/// nothing.
pub const KEY_NOT_FOUND: u32 = 3;

/// Whether a value is one that the host lets a contract store: its length is
/// a length, not the sentinel.
pub open spec fn storable(value: Seq<u8>) -> bool {
    value.len() < SENTINEL
}

/// What the host answers to a write, a deletion or an existence check: the
/// length of what the key holds, or the sentinel where it holds nothing.
pub open spec fn prior_length(store: Map<Seq<u8>, Seq<u8>>, key: Seq<u8>) -> u32 {
    if store.contains_key(key) {
        store[key].len() as u32
    } else {
        SENTINEL
    }
}

/// The store after a write.
pub open spec fn written(store: Map<Seq<u8>, Seq<u8>>, key: Seq<u8>, value: Seq<u8>) -> Map<
    Seq<u8>,
    Seq<u8>,
> {
    store.insert(key, value)
}

/// The store after a deletion.
pub open spec fn cleared(store: Map<Seq<u8>, Seq<u8>>, key: Seq<u8>) -> Map<Seq<u8>, Seq<u8>> {
    store.remove(key)
}

/// Whether the host may answer a read of `key` in this way, where guest code
/// offered the region `offered`: with `status`, with `reported` in the
/// length cell, and with `filled` where the region was.
///
/// The host writes within the region only. A key that holds nothing is
/// answered with the key-not-found status. A value that fits is written to
/// the front of the region and its length reported, with success. A value
/// that does not fit is not answered with success.
pub open spec fn answers_read(
    store: Map<Seq<u8>, Seq<u8>>,
    key: Seq<u8>,
    offered: Seq<u8>,
    status: u32,
    reported: u32,
    filled: Seq<u8>,
) -> bool {
    &&& filled.len() == offered.len()
    &&& reported <= offered.len()
    &&& if !store.contains_key(key) {
        status == KEY_NOT_FOUND
    } else if store[key].len() <= offered.len() {
        &&& status == 0
        &&& reported == store[key].len()
        &&& filled.take(reported as int) == store[key]
    } else {
        status != 0
    }
}

/// Reading a key after writing to it gives back what was written: the read
/// succeeds, and the region narrowed to the reported length holds the value,
/// whenever the region offered is large enough for it.
pub proof fn read_after_write(
    store: Map<Seq<u8>, Seq<u8>>,
    key: Seq<u8>,
    value: Seq<u8>,
    offered: Seq<u8>,
    status: u32,
    reported: u32,
    filled: Seq<u8>,
)
    requires
        offered.len() >= value.len(),
        answers_read(written(store, key, value), key, offered, status, reported, filled),
    ensures
        decode_status(status) == Ok::<(), Error>(()),
        filled.take(reported as int) == value,
{
}

/// Reading a key that holds nothing fails with the key-not-found error,
/// whatever region is offered.
pub proof fn read_of_missing_key(
    store: Map<Seq<u8>, Seq<u8>>,
    key: Seq<u8>,
    offered: Seq<u8>,
    status: u32,
    reported: u32,
    filled: Seq<u8>,
)
    requires
        !store.contains_key(key),
        answers_read(store, key, offered, status, reported, filled),
    ensures
        decode_status(status) == Err::<(), Error>(Error::KeyNotFound),
        filled.take(reported as int).len() <= offered.len(),
{
}

/// A key that was just cleared holds nothing.
pub proof fn nothing_after_clear(store: Map<Seq<u8>, Seq<u8>>, key: Seq<u8>)
    ensures
        decode_length(prior_length(cleared(store, key), key)) == None::<u32>,
{
}

/// A key that was just written holds a value of the length that was
/// written.
pub proof fn length_after_write(store: Map<Seq<u8>, Seq<u8>>, key: Seq<u8>, value: Seq<u8>)
    requires
        storable(value),
    ensures
        decode_length(prior_length(written(store, key, value), key)) == Some(value.len() as u32),
{
}

/// Whether two byte regions hold the same bytes.
pub fn same_bytes(a: &[u8], b: &[u8]) -> (same: bool)
    ensures
        same == (a@ == b@),
{
    if a.len() != b.len() {
        return false;
    }
    let mut i: usize = 0;
    while i < a.len()
        invariant
            i <= a@.len(),
            a@.len() == b@.len(),
            forall|j: int| 0 <= j < i ==> a@[j] == b@[j],
        decreases a@.len() - i,
    {
        if a[i] != b[i] {
            return false;
        }
        i += 1;
    }
    assert(a@ =~= b@);
    true
}

/// A host's storage held in memory, which answers as a host does.
pub struct MemoryStore {
    entries: Vec<(Vec<u8>, Vec<u8>)>,
    held: Ghost<Map<Seq<u8>, Seq<u8>>>,
}

impl View for MemoryStore {
    type V = Map<Seq<u8>, Seq<u8>>;

    closed spec fn view(&self) -> Map<Seq<u8>, Seq<u8>> {
        self.held@
    }
}

impl MemoryStore {
    /// Every key is kept once, with what it holds, and every value is
    /// storable.
    pub closed spec fn wf(&self) -> bool {
        &&& forall|i: int|
            0 <= i < self.entries@.len() ==> #[trigger] self.held@.contains_key(
                self.entries@[i].0@,
            ) && self.held@[self.entries@[i].0@] == self.entries@[i].1@
        &&& forall|k: Seq<u8>| #[trigger]
            self.held@.contains_key(k) ==> exists|i: int|
                0 <= i < self.entries@.len() && self.entries@[i].0@ == k
        &&& forall|i: int, j: int|
            0 <= i < j < self.entries@.len() ==> self.entries@[i].0@ != self.entries@[j].0@
        &&& forall|i: int| 0 <= i < self.entries@.len() ==> storable(#[trigger] self.entries@[i].1@)
    }

    /// A store that holds nothing.
    pub fn new() -> (store: Self)
        ensures
            store.wf(),
            store@ == Map::<Seq<u8>, Seq<u8>>::empty(),
    {
        MemoryStore { entries: Vec::new(), held: Ghost(Map::empty()) }
    }

    /// Where a key is kept, if it is.
    fn find(&self, key: &[u8]) -> (at: Option<usize>)
        requires
            self.wf(),
        ensures
            match at {
                Some(i) => i < self.entries@.len() && self.entries@[i as int].0@ == key@,
                None => !self@.contains_key(key@),
            },
    {
        let mut i: usize = 0;
        while i < self.entries.len()
            invariant
                i <= self.entries@.len(),
                forall|j: int| 0 <= j < i ==> self.entries@[j].0@ != key@,
            decreases self.entries@.len() - i,
        {
            if same_bytes(self.entries[i].0.as_slice(), key) {
                return Some(i);
            }
            i += 1;
        }
        None
    }

    /// Answers an existence check.
    pub fn contains(&self, key: &[u8]) -> (ret: ReturnCode)
        requires
            self.wf(),
        ensures
            ret.0 == prior_length(self@, key@),
    {
        match self.find(key) {
            Some(i) => ReturnCode(self.entries[i].1.len() as u32),
            None => ReturnCode(SENTINEL),
        }
    }

    /// Answers a write.
    pub fn set(&mut self, key: &[u8], value: &[u8]) -> (ret: ReturnCode)
        requires
            old(self).wf(),
            storable(value@),
        ensures
            final(self).wf(),
            final(self)@ == written(old(self)@, key@, value@),
            ret.0 == prior_length(old(self)@, key@),
    {
        let kept = (slice_to_vec(key), slice_to_vec(value));
        match self.find(key) {
            Some(i) => {
                let prior = self.entries[i].1.len() as u32;
                self.entries.set(i, kept);
                self.held = Ghost(self.held@.insert(key@, value@));
                proof {
                    let before = old(self).entries@;
                    let after = self.entries@;
                    assert forall|a: int| 0 <= a < after.len() implies #[trigger] after[a].0@
                        == before[a].0@ by {}
                    assert forall|a: int| 0 <= a < after.len() implies #[trigger]
                        self.held@.contains_key(after[a].0@) && self.held@[after[a].0@]
                        == after[a].1@ by {
                        if a != i {
                            assert(old(self).held@.contains_key(before[a].0@));
                            if a < i {
                                assert(before[a].0@ != before[i as int].0@);
                            } else {
                                assert(before[i as int].0@ != before[a].0@);
                            }
                        }
                    }
                    assert forall|k: Seq<u8>| #[trigger] self.held@.contains_key(k) implies exists|
                        a: int,
                    | 0 <= a < after.len() && after[a].0@ == k by {
                        if k == key@ {
                            assert(after[i as int].0@ == k);
                        } else {
                            assert(old(self).held@.contains_key(k));
                            let a = choose|a: int| 0 <= a < before.len() && before[a].0@ == k;
                            assert(after[a].0@ == k);
                        }
                    }
                    assert forall|a: int| 0 <= a < after.len() implies storable(
                        #[trigger] after[a].1@,
                    ) by {
                        if a != i {
                            assert(storable(before[a].1@));
                        }
                    }
                }
                ReturnCode(prior)
            },
            None => {
                self.entries.push(kept);
                self.held = Ghost(self.held@.insert(key@, value@));
                assert forall|k: Seq<u8>| #[trigger] self.held@.contains_key(k) implies exists|
                    i: int,
                | 0 <= i < self.entries@.len() && self.entries@[i].0@ == k by {
                    if k == key@ {
                        assert(self.entries@[self.entries@.len() - 1].0@ == k);
                    } else {
                        assert(old(self).held@.contains_key(k));
                        let i = choose|i: int|
                            0 <= i < old(self).entries@.len() && old(self).entries@[i].0@ == k;
                        assert(self.entries@[i].0@ == k);
                    }
                }
                ReturnCode(SENTINEL)
            },
        }
    }

    /// Answers a deletion.
    pub fn clear(&mut self, key: &[u8]) -> (ret: ReturnCode)
        requires
            old(self).wf(),
        ensures
            final(self).wf(),
            final(self)@ == cleared(old(self)@, key@),
            ret.0 == prior_length(old(self)@, key@),
    {
        match self.find(key) {
            Some(i) => {
                let prior = self.entries[i].1.len() as u32;
                self.entries.remove(i);
                self.held = Ghost(self.held@.remove(key@));
                proof {
                    let before = old(self).entries@;
                    let after = self.entries@;
                    assert forall|a: int| 0 <= a < after.len() implies #[trigger] after[a]
                        == before[if a < i {
                        a
                    } else {
                        a + 1
                    }] by {}
                    assert forall|a: int| 0 <= a < after.len() implies #[trigger]
                        self.held@.contains_key(after[a].0@) && self.held@[after[a].0@]
                        == after[a].1@ by {
                        let b = if a < i {
                            a
                        } else {
                            a + 1
                        };
                        assert(after[a] == before[b]);
                        assert(old(self).held@.contains_key(before[b].0@));
                        if b < i {
                            assert(before[b].0@ != before[i as int].0@);
                        } else {
                            assert(before[i as int].0@ != before[b].0@);
                        }
                    }
                    assert forall|k: Seq<u8>| #[trigger] self.held@.contains_key(k) implies exists|
                        a: int,
                    | 0 <= a < after.len() && after[a].0@ == k by {
                        assert(old(self).held@.contains_key(k));
                        let b = choose|b: int| 0 <= b < before.len() && before[b].0@ == k;
                        let a = if b < i {
                            b
                        } else {
                            b - 1
                        };
                        assert(after[a] == before[b]);
                        assert(after[a].0@ == k);
                    }
                    assert forall|a: int, b: int| 0 <= a < b < after.len() implies after[a].0@
                        != after[b].0@ by {
                        let a0 = if a < i {
                            a
                        } else {
                            a + 1
                        };
                        let b0 = if b < i {
                            b
                        } else {
                            b + 1
                        };
                        assert(after[a] == before[a0]);
                        assert(after[b] == before[b0]);
                        assert(before[a0].0@ != before[b0].0@);
                    }
                    assert forall|a: int| 0 <= a < after.len() implies storable(
                        #[trigger] after[a].1@,
                    ) by {
                        let a0 = if a < i {
                            a
                        } else {
                            a + 1
                        };
                        assert(after[a] == before[a0]);
                        assert(storable(before[a0].1@));
                    }
                }
                ReturnCode(prior)
            },
            None => {
                self.held = Ghost(self.held@.remove(key@));
                assert(self.held@ =~= old(self).held@);
                ReturnCode(SENTINEL)
            },
        }
    }

    /// Answers a read: writes what the key holds to the front of `output`
    /// and its length to `len_cell`, where it fits.
    pub fn get(&self, key: &[u8], output: &mut Vec<u8>, len_cell: &mut u32) -> (ret: ReturnCode)
        requires
            self.wf(),
            *old(len_cell) == old(output)@.len(),
        ensures
            answers_read(self@, key@, old(output)@, ret.0, *final(len_cell), final(output)@),
    {
        match self.find(key) {
            None => ReturnCode(KEY_NOT_FOUND),
            Some(i) => {
                let n = self.entries[i].1.len();
                if n > output.len() {
                    // Refused with a status that has no meaning of its own.
                    return ReturnCode(LAST_DEFINED + 1);
                }
                let mut j: usize = 0;
                while j < n
                    invariant
                        j <= n,
                        i < self.entries@.len(),
                        n == self.entries@[i as int].1@.len(),
                        n <= output@.len(),
                        output@.len() == old(output)@.len(),
                        forall|k: int| 0 <= k < j ==> output@[k] == self.entries@[i as int].1@[k],
                    decreases n - j,
                {
                    let byte = self.entries[i].1[j];
                    output.set(j, byte);
                    j += 1;
                }
                *len_cell = n as u32;
                assert(output@.take(n as int) =~= self.entries@[i as int].1@);
                ReturnCode(0)
            },
        }
    }

    /// Answers a read that also deletes: as a read, and where the read
    /// succeeds the key holds nothing afterwards.
    pub fn take(&mut self, key: &[u8], output: &mut Vec<u8>, len_cell: &mut u32) -> (ret:
        ReturnCode)
        requires
            old(self).wf(),
            *old(len_cell) == old(output)@.len(),
        ensures
            final(self).wf(),
            answers_read(old(self)@, key@, old(output)@, ret.0, *final(len_cell), final(output)@),
            final(self)@ == if ret.0 == 0 {
                cleared(old(self)@, key@)
            } else {
                old(self)@
            },
    {
        let ret = self.get(key, output, len_cell);
        if ret.0 == 0 {
            let _ = self.clear(key);
        }
        ret
    }
}

} // verus!
