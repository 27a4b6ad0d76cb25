use vstd::prelude::*;

verus! {

use vstd::map::*;
use crate::crypt::token::str_eq;

/// One stored association: a refresh-token identifier, the user id it was
/// issued for, and the moment the entry lapses.
struct StoreEntry {
    key: String,
    value: String,
    expires_at: i64,
}

/// An in-memory refresh-token store with the two capabilities the rotation
/// protocol consumes: set-with-expiry and atomic get-and-delete. It models
/// the external TTL store; the host program may put a network-backed store
/// with the same two operations in its place.
///
/// The store's contents are a map from identifier to the bound user id and
/// the expiry moment; an entry whose expiry is not in the future counts as
/// absent.
pub struct RefreshStore {
    entries: Vec<StoreEntry>,
}

impl RefreshStore {
    spec fn map_of(s: Seq<StoreEntry>) -> Map<Seq<char>, (Seq<char>, int)>
        decreases s.len(),
    {
        if s.len() == 0 {
            Map::empty()
        } else {
            Self::map_of(s.drop_last()).insert(
                s.last().key@,
                (s.last().value@, s.last().expires_at as int),
            )
        }
    }

    /// The stored associations: identifier to (user id, expiry moment).
    pub closed spec fn contents(&self) -> Map<Seq<char>, (Seq<char>, int)> {
        Self::map_of(self.entries@)
    }

    /// Whether `key` is present and not yet lapsed at `now`.
    pub open spec fn live(&self, key: Seq<char>, now: int) -> bool {
        self.contents().contains_key(key) && self.contents()[key].1 > now
    }

    #[verifier::type_invariant]
    spec fn wf(&self) -> bool {
        forall|i: int, j: int|
            0 <= i < j < self.entries@.len() ==> #[trigger] self.entries@[i].key@
                != #[trigger] self.entries@[j].key@
    }

    proof fn lemma_map_of_contains(s: Seq<StoreEntry>)
        ensures
            forall|k: Seq<char>|
                #[trigger] Self::map_of(s).contains_key(k) <==> exists|i: int|
                    0 <= i < s.len() && #[trigger] s[i].key@ == k,
        decreases s.len(),
    {
        if s.len() > 0 {
            Self::lemma_map_of_contains(s.drop_last());
            assert forall|k: Seq<char>| #[trigger]
                Self::map_of(s).contains_key(k) implies exists|i: int|
                0 <= i < s.len() && #[trigger] s[i].key@ == k by {
                if k == s.last().key@ {
                    assert(s[s.len() - 1].key@ == k);
                } else {
                    assert(Self::map_of(s.drop_last()).contains_key(k));
                    let i = choose|i: int|
                        0 <= i < s.drop_last().len() && #[trigger] s.drop_last()[i].key@ == k;
                    assert(s[i].key@ == k);
                }
            }
            assert forall|k: Seq<char>|
                (exists|i: int| 0 <= i < s.len() && #[trigger] s[i].key@ == k) implies #[trigger]
                Self::map_of(s).contains_key(k) by {
                let i = choose|i: int| 0 <= i < s.len() && #[trigger] s[i].key@ == k;
                if i < s.len() - 1 {
                    assert(s.drop_last()[i].key@ == k);
                    assert(Self::map_of(s.drop_last()).contains_key(k));
                }
            }
        }
    }

    proof fn lemma_map_of_witness(s: Seq<StoreEntry>, i: int)
        requires
            0 <= i < s.len(),
        ensures
            Self::map_of(s).contains_key(s[i].key@),
        decreases s.len(),
    {
        if i < s.len() - 1 {
            Self::lemma_map_of_witness(s.drop_last(), i);
            assert(s.drop_last()[i] == s[i]);
        }
    }

    proof fn lemma_map_of_index(s: Seq<StoreEntry>, i: int)
        requires
            0 <= i < s.len(),
            forall|x: int, y: int|
                0 <= x < y < s.len() ==> #[trigger] s[x].key@ != #[trigger] s[y].key@,
        ensures
            Self::map_of(s).contains_key(s[i].key@),
            Self::map_of(s)[s[i].key@] == (s[i].value@, s[i].expires_at as int),
        decreases s.len(),
    {
        if i == s.len() - 1 {
            Self::lemma_map_of_contains(s);
        } else {
            Self::lemma_map_of_index(s.drop_last(), i);
            assert(s.drop_last()[i] == s[i]);
            assert(s[i].key@ != s.last().key@);
        }
    }

    proof fn lemma_map_of_remove(s: Seq<StoreEntry>, i: int)
        requires
            0 <= i < s.len(),
            forall|x: int, y: int|
                0 <= x < y < s.len() ==> #[trigger] s[x].key@ != #[trigger] s[y].key@,
        ensures
            Self::map_of(s.remove(i)) == Self::map_of(s).remove(s[i].key@),
        decreases s.len(),
    {
        let k = s[i].key@;
        if i == s.len() - 1 {
            assert(s.remove(i) =~= s.drop_last());
            Self::lemma_map_of_contains(s.drop_last());
            assert(!Self::map_of(s.drop_last()).contains_key(k));
            assert(Self::map_of(s.drop_last()).insert(
                k,
                (s.last().value@, s.last().expires_at as int),
            ).remove(k) =~= Self::map_of(s.drop_last()));
        } else {
            Self::lemma_map_of_remove(s.drop_last(), i);
            assert(s.remove(i).drop_last() =~= s.drop_last().remove(i));
            assert(s.remove(i).last() == s.last());
            assert(s.drop_last()[i] == s[i]);
            assert(k != s.last().key@);
            // insert of the last entry and removal of a different key commute
            assert(Self::map_of(s.drop_last()).remove(k).insert(
                s.last().key@,
                (s.last().value@, s.last().expires_at as int),
            ) =~= Self::map_of(s.drop_last()).insert(
                s.last().key@,
                (s.last().value@, s.last().expires_at as int),
            ).remove(k));
        }
    }

    /// An empty store.
    pub fn new() -> (r: Self)
        ensures
            r.contents() == Map::<Seq<char>, (Seq<char>, int)>::empty(),
    {
        RefreshStore { entries: Vec::new() }
    }

    /// The index holding `key`, if any.
    fn find_index(&self, key: &str) -> (r: Option<usize>)
        ensures
            r matches Some(i) ==> i < self.entries@.len() && self.entries@[i as int].key@ == key@,
            r is None ==> forall|i: int|
                0 <= i < self.entries@.len() ==> #[trigger] self.entries@[i].key@ != key@,
            r is Some <==> self.contents().contains_key(key@),
    {
        proof {
            Self::lemma_map_of_contains(self.entries@);
        }
        let n = self.entries.len();
        let mut i: usize = 0;
        while i < n
            invariant
                0 <= i <= n,
                n == self.entries@.len(),
                forall|j: int| 0 <= j < i ==> #[trigger] self.entries@[j].key@ != key@,
            decreases n - i,
        {
            if str_eq(self.entries[i].key.as_str(), key) {
                proof {
                    assert(self.entries@[i as int].key@ == key@);
                    Self::lemma_map_of_witness(self.entries@, i as int);
                }
                return Some(i);
            }
            i = i + 1;
        }
        None
    }

    /// Stores `key -> value`, lapsing `ttl_secs` seconds after `now`; an
    /// entry already under `key` is replaced.
    pub fn set_ex(&mut self, key: &str, value: &str, ttl_secs: u64, now: i64)
        requires
            now + ttl_secs <= i64::MAX,
        ensures
            final(self).contents() == old(self).contents().insert(
                key@,
                (value@, now + ttl_secs),
            ),
    {
        proof {
            use_type_invariant(&*self);
        }
        let ghost pre: Seq<StoreEntry> = self.entries@;
        let index = self.find_index(key);
        let mut entries: Vec<StoreEntry> = Vec::new();
        std::mem::swap(&mut entries, &mut self.entries);
        match index {
            Some(i) => {
                proof {
                    Self::lemma_map_of_remove(pre, i as int);
                }
                entries.remove(i);
                proof {
                    assert forall|j: int|
                        0 <= j < entries@.len() implies #[trigger] entries@[j].key@ != key@ by {
                        assert(entries@[j] == if j < i as int {
                            pre[j]
                        } else {
                            pre[j + 1]
                        });
                    }
                }
            },
            None => {
                proof {
                    Self::lemma_map_of_contains(pre);
                    assert(Self::map_of(pre).remove(key@) =~= Self::map_of(pre));
                }
            },
        }
        let ghost mid: Seq<StoreEntry> = entries@;
        let expires_at: i64 = ((now as i128) + (ttl_secs as i128)) as i64;
        entries.push(StoreEntry { key: key.to_owned(), value: value.to_owned(), expires_at });
        proof {
            assert(entries@.drop_last() =~= mid);
            assert(Self::map_of(entries@) =~= Self::map_of(pre).insert(
                key@,
                (value@, now + ttl_secs),
            ));
        }
        self.entries = entries;
    }

    /// Atomically takes `key` out of the store. Returns the bound user id
    /// where the entry is present and not lapsed; a miss — never issued,
    /// already consumed, or lapsed — only ever removes.
    pub fn get_del(&mut self, key: &str, now: i64) -> (r: Option<String>)
        ensures
            final(self).contents() == old(self).contents().remove(key@),
            r is Some <==> old(self).live(key@, now as int),
            r matches Some(v) ==> v@ == old(self).contents()[key@].0,
    {
        proof {
            use_type_invariant(&*self);
        }
        let ghost pre: Seq<StoreEntry> = self.entries@;
        let index = self.find_index(key);
        match index {
            Some(i) => {
                proof {
                    Self::lemma_map_of_remove(pre, i as int);
                    Self::lemma_map_of_index(pre, i as int);
                }
                let mut entries: Vec<StoreEntry> = Vec::new();
                std::mem::swap(&mut entries, &mut self.entries);
                let entry = entries.remove(i);
                self.entries = entries;
                if entry.expires_at > now {
                    Some(entry.value)
                } else {
                    None
                }
            },
            None => {
                proof {
                    Self::lemma_map_of_contains(pre);
                    assert(Self::map_of(pre).remove(key@) =~= Self::map_of(pre));
                }
                None
            },
        }
    }
}

} // verus!
