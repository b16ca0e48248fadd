//! Signer identities.

use vstd::prelude::*;

verus! {

/// An authenticated identity: the 32 bytes of a public key.
///
/// Two identities are the same exactly when their bytes are the same.
#[derive(Clone, Copy, Debug)]
pub struct PublicKey {
    pub bytes: [u8; 32],
}

impl PublicKey {
    /// The identity made of the given bytes.
    pub fn new(bytes: [u8; 32]) -> (key: PublicKey)
        ensures
            key.bytes == bytes,
    {
        PublicKey { bytes }
    }

    /// The bytes of this identity.
    pub fn to_bytes(&self) -> (bytes: [u8; 32])
        ensures
            bytes == self.bytes,
    {
        self.bytes
    }
}

/// The bytes of `bytes`, in order, as a vector.
pub fn copy_bytes(bytes: &[u8]) -> (out: Vec<u8>)
    ensures
        out@ == bytes@,
{
    let mut out: Vec<u8> = Vec::new();
    let mut i: usize = 0;
    while i < bytes.len()
        invariant
            i <= bytes.len(),
            out@ == bytes@.subrange(0, i as int),
        decreases bytes.len() - i,
    {
        out.push(bytes[i]);
        i += 1;
        assert(out@ =~= bytes@.subrange(0, i as int));
    }
    assert(bytes@.subrange(0, bytes@.len() as int) =~= bytes@);
    out
}

impl PartialEq for PublicKey {
    fn eq(&self, other: &PublicKey) -> (same: bool) {
        let mut i: usize = 0;
        while i < 32
            invariant
                i <= 32,
                forall|j: int| 0 <= j < i ==> self.bytes[j] == other.bytes[j],
            decreases 32 - i,
        {
            if self.bytes[i] != other.bytes[i] {
                return false;
            }
            i += 1;
        }
        assert(self.bytes =~= other.bytes);
        true
    }
}

impl Eq for PublicKey {}

impl vstd::std_specs::cmp::PartialEqSpecImpl for PublicKey {
    open spec fn obeys_eq_spec() -> bool {
        true
    }

    open spec fn eq_spec(&self, other: &PublicKey) -> bool {
        *self == *other
    }
}

/// `list` with every entry equal to `key` taken out; the others keep their
/// order.
pub open spec fn without(list: Seq<PublicKey>, key: PublicKey) -> Seq<PublicKey> {
    list.filter(differs_from(key))
}

/// The test that an identity is another one than `key`.
pub open spec fn differs_from(key: PublicKey) -> spec_fn(PublicKey) -> bool {
    |k: PublicKey| k != key
}

/// What taking `key` out of `list` leaves: `key` is gone, every other entry
/// is still there, nothing new came in, the list did not grow, distinct
/// entries stay distinct, and a list of distinct entries that held `key` is
/// shorter by exactly one.
pub proof fn lemma_without(list: Seq<PublicKey>, key: PublicKey)
    ensures
        !without(list, key).contains(key),
        forall|k: PublicKey| k != key ==> (without(list, key).contains(k) <==> list.contains(k)),
        without(list, key).len() <= list.len(),
        !list.contains(key) ==> without(list, key) == list,
        list.no_duplicates() ==> without(list, key).no_duplicates(),
        list.no_duplicates() && list.contains(key) ==> without(list, key).len() + 1 == list.len(),
    decreases list.len(),
{
    let pred = differs_from(key);
    if list.len() == 0 {
        reveal(Seq::filter);
        assert(without(list, key) =~= list);
    } else {
        let front = list.drop_last();
        let last = list.last();
        lemma_without(front, key);
        assert(list =~= front.push(last));
        front.lemma_filter_push(last, pred);
        let rest = without(front, key);
        let out = without(list, key);
        assert forall|k: PublicKey| list.contains(k) <==> (front.contains(k) || k == last) by {
            if list.contains(k) {
                let i = choose|i: int| 0 <= i < list.len() && list[i] == k;
                if i < front.len() {
                    assert(front[i] == k);
                }
            }
            if front.contains(k) {
                let i = choose|i: int| 0 <= i < front.len() && front[i] == k;
                assert(list[i] == k);
            }
            if k == last {
                assert(list[list.len() - 1] == k);
            }
        }
        if last == key {
            assert(out == rest);
            if list.no_duplicates() {
                assert(front.no_duplicates());
                if front.contains(key) {
                    let i = choose|i: int| 0 <= i < front.len() && front[i] == key;
                    assert(list[i] == list[list.len() - 1]);
                }
            }
        } else {
            assert(out == rest.push(last));
            assert forall|k: PublicKey| out.contains(k) <==> (rest.contains(k) || k == last) by {
                if out.contains(k) {
                    let i = choose|i: int| 0 <= i < out.len() && out[i] == k;
                    if i < rest.len() {
                        assert(rest[i] == k);
                    }
                }
                if rest.contains(k) {
                    let i = choose|i: int| 0 <= i < rest.len() && rest[i] == k;
                    assert(out[i] == k);
                }
                if k == last {
                    assert(out[out.len() - 1] == k);
                }
            }
            if !list.contains(key) {
                assert(out =~= list);
            }
            if list.no_duplicates() {
                assert(front.no_duplicates());
                if front.contains(last) {
                    let i = choose|i: int| 0 <= i < front.len() && front[i] == last;
                    assert(list[i] == list[list.len() - 1]);
                }
                assert(!rest.contains(last));
                assert forall|i: int, j: int|
                    0 <= i < out.len() && 0 <= j < out.len() && i != j implies out[i] != out[j] by {
                    if i < rest.len() && j < rest.len() {
                        assert(rest[i] != rest[j]);
                    } else if i < rest.len() {
                        assert(rest.contains(rest[i]));
                    } else {
                        assert(rest.contains(rest[j]));
                    }
                }
            }
        }
    }
}

/// Whether `key` is one of the entries of `list`.
pub fn contains_key(list: &Vec<PublicKey>, key: &PublicKey) -> (found: bool)
    ensures
        found == list@.contains(*key),
{
    let mut i: usize = 0;
    while i < list.len()
        invariant
            i <= list.len(),
            forall|j: int| 0 <= j < i ==> list@[j] != *key,
        decreases list.len() - i,
    {
        if list[i] == *key {
            return true;
        }
        i += 1;
    }
    false
}

/// Takes every entry equal to `key` out of `list` and keeps the others in
/// their order.
pub fn remove_key(list: &mut Vec<PublicKey>, key: &PublicKey)
    ensures
        final(list)@ == without(old(list)@, *key),
{
    let ghost pred = differs_from(*key);
    let mut kept: Vec<PublicKey> = Vec::new();
    let mut i: usize = 0;
    proof {
        reveal(Seq::filter);
        assert(list@.subrange(0, 0).filter(pred) =~= kept@);
    }
    while i < list.len()
        invariant
            i <= list.len(),
            pred == differs_from(*key),
            kept@ == list@.subrange(0, i as int).filter(pred),
        decreases list.len() - i,
    {
        let entry = list[i];
        proof {
            list@.subrange(0, i as int).lemma_filter_push(entry, pred);
            assert(list@.subrange(0, i as int).push(entry) =~= list@.subrange(0, i + 1));
        }
        if !(entry == *key) {
            kept.push(entry);
        }
        i += 1;
    }
    proof {
        assert(list@.subrange(0, list@.len() as int) =~= list@);
    }
    *list = kept;
}

} // verus!
