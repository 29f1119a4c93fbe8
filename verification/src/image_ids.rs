//! Terminal image ids for cover art drawn through a graphics protocol: each
//! (cover art, size) key keeps one id while its image lives in the
//! terminal, so a rebuilt image overwrites its predecessor instead of piling
//! up, and evicted images can be deleted by id.
use vstd::prelude::*;

use crate::text::str_equal;

verus! {

/// A protocol image key: the cover art id and the render size in cells.
pub type ImageKey = (String, u16, u16);

/// An image key as a value.
pub type KeyView = (Seq<char>, u16, u16);

/// The key as a value.
pub open spec fn key_view(k: ImageKey) -> KeyView {
    (k.0@, k.1, k.2)
}

/// The ids assigned to live image keys, and the last id handed out.
pub struct ImageIds {
    pub entries: Vec<(ImageKey, u32)>,
    pub last: u32,
}

/// The keys of the entries, as values.
pub open spec fn keys_of(entries: Seq<(ImageKey, u32)>) -> Seq<KeyView> {
    entries.map_values(|e: (ImageKey, u32)| key_view(e.0))
}

/// The keys given, as values.
pub open spec fn key_views(keys: Seq<ImageKey>) -> Seq<KeyView> {
    keys.map_values(|k: ImageKey| key_view(k))
}

/// The ids that releasing the `evicted` keys in order frees: for each key,
/// its id among `entries` where it has one and no earlier evicted key was
/// the same (that one already freed it).
pub open spec fn released_ids(entries: Seq<(ImageKey, u32)>, evicted: Seq<KeyView>) -> Seq<u32>
    decreases evicted.len(),
{
    if evicted.len() == 0 {
        Seq::empty()
    } else {
        let prev = released_ids(entries, evicted.drop_last());
        let k = evicted.last();
        match id_of(entries, k) {
            Some(id) => if evicted.drop_last().contains(k) { prev } else { prev.push(id) },
            None => prev,
        }
    }
}

/// The id of `key` among `entries`, if it has one.
pub open spec fn id_of(entries: Seq<(ImageKey, u32)>, key: KeyView) -> Option<u32>
    decreases entries.len(),
{
    if entries.len() == 0 {
        None
    } else if key_view(entries.last().0) == key {
        Some(entries.last().1)
    } else {
        id_of(entries.drop_last(), key)
    }
}

/// `id_of` finds the entry with the key, when one exists, and nothing
/// otherwise.
proof fn lemma_id_of(entries: Seq<(ImageKey, u32)>, key: KeyView)
    ensures
        id_of(entries, key) is None <==> !keys_of(entries).contains(key),
        id_of(entries, key) matches Some(id) ==> exists|i: int| 0 <= i < entries.len()
            && key_view(#[trigger] entries[i].0) == key && entries[i].1 == id,
    decreases entries.len(),
{
    if entries.len() > 0 {
        let rest = entries.drop_last();
        lemma_id_of(rest, key);
        assert(keys_of(entries) =~= keys_of(rest).push(key_view(entries.last().0)));
        if key_view(entries.last().0) != key {
            if keys_of(entries).contains(key) {
                let i = choose|i: int| 0 <= i < keys_of(entries).len() && keys_of(entries)[i] == key;
                assert(i < rest.len());
                assert(keys_of(rest)[i] == key);
            }
            if keys_of(rest).contains(key) {
                let i = choose|i: int| 0 <= i < keys_of(rest).len() && keys_of(rest)[i] == key;
                assert(keys_of(entries)[i] == key);
            }
            if let Some(id) = id_of(rest, key) {
                let i = choose|i: int| 0 <= i < rest.len() && key_view(#[trigger] rest[i].0) == key && rest[i].1 == id;
                assert(entries[i] == rest[i]);
            }
        } else {
            assert(entries[entries.len() - 1] == entries.last());
            assert(keys_of(entries)[entries.len() - 1] == key);
        }
    } else {
        assert(keys_of(entries) =~= Seq::<KeyView>::empty());
    }
}

impl ImageIds {
    /// No key holds two ids.
    pub open spec fn wf(self) -> bool {
        keys_of(self.entries@).no_duplicates()
    }

    /// No ids assigned; the first id handed out is 1.
    pub fn new() -> (r: Self)
        ensures
            r.wf(),
            r.entries@.len() == 0,
            r.last == 0,
    {
        let r = ImageIds { entries: Vec::new(), last: 0 };
        assert(keys_of(r.entries@) =~= Seq::<KeyView>::empty());
        r
    }

    /// The id of `key`, if it has one.
    fn find(&self, key: &ImageKey) -> (r: Option<usize>)
        ensures
            r matches Some(i) ==> i < self.entries@.len() && key_view(self.entries@[i as int].0) == key_view(*key),
            r is None ==> !keys_of(self.entries@).contains(key_view(*key)),
    {
        let mut i: usize = 0;
        while i < self.entries.len()
            invariant
                i <= self.entries.len(),
                forall|k: int| 0 <= k < i ==> key_view(#[trigger] self.entries@[k].0) != key_view(*key),
            decreases self.entries.len() - i,
        {
            let e = &self.entries[i].0;
            if str_equal(e.0.as_str(), key.0.as_str()) && e.1 == key.1 && e.2 == key.2 {
                return Some(i);
            }
            i = i + 1;
        }
        proof {
            if keys_of(self.entries@).contains(key_view(*key)) {
                let k = choose|k: int| 0 <= k < keys_of(self.entries@).len() && keys_of(self.entries@)[k] == key_view(*key);
                assert(key_view(self.entries@[k].0) == key_view(*key));
            }
        }
        None
    }

    /// The id of `key`, handing out the next id (wrapping) on first use. A
    /// key keeps its id for as long as it has one, so a rebuilt image
    /// reuses it, and the other keys keep theirs.
    pub fn alloc_id(&mut self, key: &ImageKey) -> (id: u32)
        requires
            old(self).wf(),
        ensures
            final(self).wf(),
            keys_of(old(self).entries@).contains(key_view(*key)) ==> {
                &&& id == id_of(old(self).entries@, key_view(*key))->0
                &&& *final(self) == *old(self)
            },
            !keys_of(old(self).entries@).contains(key_view(*key)) ==> {
                &&& id == (if old(self).last == u32::MAX { 0 } else { old(self).last + 1 })
                &&& final(self).last == id
                &&& keys_of(final(self).entries@) == keys_of(old(self).entries@).push(key_view(*key))
                &&& id_of(final(self).entries@, key_view(*key)) == Some(id)
                &&& forall|k: KeyView| k != key_view(*key) ==> #[trigger] id_of(final(self).entries@, k)
                    == id_of(old(self).entries@, k)
            },
    {
        proof {
            lemma_id_of(self.entries@, key_view(*key));
        }
        match self.find(key) {
            Some(i) => {
                proof {
                    let k = key_view(*key);
                    assert(keys_of(self.entries@)[i as int] == k);
                    if let Some(id) = id_of(self.entries@, k) {
                        let j = choose|j: int| 0 <= j < self.entries@.len() && key_view(#[trigger] self.entries@[j].0) == k && self.entries@[j].1 == id;
                        assert(keys_of(self.entries@)[j] == k);
                    }
                }
                self.entries[i].1
            },
            None => {
                let ghost before = self.entries@;
                self.last = self.last.wrapping_add(1);
                let id = self.last;
                self.entries.push(((key.0.clone(), key.1, key.2), id));
                proof {
                    assert(key_view(self.entries@.last().0) == key_view(*key));
                    assert(keys_of(self.entries@) =~= keys_of(before).push(key_view(*key)));
                    assert(self.entries@.drop_last() =~= before);
                }
                id
            },
        }
    }

    /// Releases the ids of `evicted` keys, returning the released ids in
    /// order (keys that never had an id release nothing), so their
    /// terminal images can be deleted.
    pub fn forget(&mut self, evicted: &Vec<ImageKey>) -> (released: Vec<u32>)
        requires
            old(self).wf(),
        ensures
            final(self).wf(),
            final(self).last == old(self).last,
            forall|k: KeyView| #[trigger] keys_of(final(self).entries@).contains(k) <==> (keys_of(old(self).entries@).contains(k)
                && !key_views(evicted@).contains(k)),
            forall|k: KeyView| keys_of(final(self).entries@).contains(k) ==> #[trigger] id_of(final(self).entries@, k)
                == id_of(old(self).entries@, k),
            released@ == released_ids(old(self).entries@, key_views(evicted@)),
    {
        let mut released: Vec<u32> = Vec::new();
        let mut j: usize = 0;
        let ghost orig = self.entries@;
        while j < evicted.len()
            invariant
                j <= evicted.len(),
                self.wf(),
                self.last == old(self).last,
                orig == old(self).entries@,
                forall|k: KeyView| #[trigger] keys_of(self.entries@).contains(k) <==> (keys_of(orig).contains(k)
                    && !key_views(evicted@.take(j as int)).contains(k)),
                forall|k: KeyView| keys_of(self.entries@).contains(k) ==> #[trigger] id_of(self.entries@, k)
                    == id_of(orig, k),
                released@ == released_ids(orig, key_views(evicted@.take(j as int))),
            decreases evicted.len() - j,
        {
            let ghost k = key_view(evicted@[j as int]);
            let ghost start = self.entries@;
            assert(key_views(evicted@.take(j + 1)) =~= key_views(evicted@.take(j as int)).push(k));
            assert(key_views(evicted@)[j as int] == k);
            assert(key_views(evicted@.take(j + 1))[j as int] == k);
            assert(key_views(evicted@.take(j + 1)).drop_last() =~= key_views(evicted@.take(j as int)));
            proof {
                lemma_id_of(orig, k);
            }
            match self.find(&evicted[j]) {
                Some(i) => {
                    let ghost before = self.entries@;
                    proof {
                        lemma_id_of(before, k);
                        assert(keys_of(before)[i as int] == k);
                        lemma_unique_id(before, i as int, k);
                    }
                    let (_, id) = self.entries.remove(i);
                    proof {
                        lemma_remove_keeps(before, i as int);
                    }
                    released.push(id);
                    proof {
                        assert(id_of(orig, k) == Some(id));
                        assert(keys_of(start).contains(k));
                    }
                },
                None => {
                    assert(!keys_of(start).contains(k));
                },
            }
            proof {
                let now = keys_of(self.entries@);
                assert forall|k2: KeyView| #[trigger] now.contains(k2) <==> (keys_of(orig).contains(k2)
                    && !key_views(evicted@.take(j + 1)).contains(k2)) by {
                    lemma_push_contains(key_views(evicted@.take(j as int)), k, k2);
                    assert(keys_of(start).contains(k2) <==> (keys_of(orig).contains(k2)
                        && !key_views(evicted@.take(j as int)).contains(k2)));
                }
            }
            j = j + 1;
        }
        assert(evicted@.take(evicted.len() as int) =~= evicted@);
        released
    }
}

/// A sequence with `x` pushed holds exactly its own elements and `x`.
proof fn lemma_push_contains(s: Seq<KeyView>, x: KeyView, y: KeyView)
    ensures
        s.push(x).contains(y) <==> (s.contains(y) || x == y),
{
    if s.push(x).contains(y) && x != y {
        let i = choose|i: int| 0 <= i < s.push(x).len() && s.push(x)[i] == y;
        assert(i < s.len());
        assert(s[i] == y);
    }
    if s.contains(y) {
        let i = choose|i: int| 0 <= i < s.len() && s[i] == y;
        assert(s.push(x)[i] == y);
    }
    if x == y {
        assert(s.push(x)[s.len() as int] == y);
    }
}

/// With distinct keys, the entry at `i` holds the id of its key.
proof fn lemma_unique_id(entries: Seq<(ImageKey, u32)>, i: int, k: KeyView)
    requires
        keys_of(entries).no_duplicates(),
        0 <= i < entries.len(),
        key_view(entries[i].0) == k,
    ensures
        id_of(entries, k) == Some(entries[i].1),
    decreases entries.len(),
{
    let rest = entries.drop_last();
    assert(keys_of(rest) =~= keys_of(entries).drop_last());
    if i < entries.len() - 1 {
        assert(keys_of(entries)[i] == k);
        if key_view(entries.last().0) == k {
            assert(keys_of(entries)[entries.len() - 1] == k);
        }
        assert(rest[i] == entries[i]);
        lemma_unique_id(rest, i, k);
    }
}

/// Removing entry `i` keeps distinct keys, the other keys and their ids.
proof fn lemma_remove_keeps(entries: Seq<(ImageKey, u32)>, i: int)
    requires
        keys_of(entries).no_duplicates(),
        0 <= i < entries.len(),
    ensures
        keys_of(entries.remove(i)).no_duplicates(),
        forall|k: KeyView| #[trigger] keys_of(entries.remove(i)).contains(k) <==> (keys_of(entries).contains(k)
            && k != key_view(entries[i].0)),
        forall|k: KeyView| keys_of(entries.remove(i)).contains(k) ==> #[trigger] id_of(entries.remove(i), k)
            == id_of(entries, k),
{
    let r = entries.remove(i);
    let ks = keys_of(entries);
    assert(keys_of(r) =~= ks.remove(i));
    assert forall|k: KeyView| #[trigger] keys_of(r).contains(k) <==> (ks.contains(k) && k != ks[i]) by {
        if keys_of(r).contains(k) {
            let j = choose|j: int| 0 <= j < keys_of(r).len() && keys_of(r)[j] == k;
            if j < i {
                assert(ks[j] == k);
            } else {
                assert(ks[j + 1] == k);
            }
        }
        if ks.contains(k) && k != ks[i] {
            let j = choose|j: int| 0 <= j < ks.len() && ks[j] == k;
            if j < i {
                assert(keys_of(r)[j] == k);
            } else {
                assert(j != i);
                assert(keys_of(r)[j - 1] == k);
            }
        }
    }
    assert forall|k: KeyView| keys_of(r).contains(k) implies #[trigger] id_of(r, k) == id_of(entries, k) by {
        let j = choose|j: int| 0 <= j < keys_of(r).len() && keys_of(r)[j] == k;
        lemma_unique_id(r, j, k);
        if j < i {
            lemma_unique_id(entries, j, k);
        } else {
            lemma_unique_id(entries, j + 1, k);
        }
    }
}

} // verus!
