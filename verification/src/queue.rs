//! The queue of tracks waiting to be played: an insertion-ordered map from
//! track id to track, held in an `indexmap::IndexMap`.
use vstd::prelude::*;

use indexmap::IndexMap;

use crate::random::{is_permutation, permutes, shuffle_vec, thread_rng};
use crate::track::{SoundCloudTrack, TrackView};

verus! {

/// `indexmap`'s ordered map.
#[verifier::external_type_specification]
#[verifier::external_body]
#[verifier::reject_recursive_types(K)]
#[verifier::reject_recursive_types(V)]
#[verifier::reject_recursive_types(S)]
pub struct ExIndexMap<K, V, S>(IndexMap<K, V, S>);

/// One entry of the queue: the id of a track and the track.
pub type PendingEntry = (Seq<char>, TrackView);

/// What an `IndexMap` of tracks holds: its key-value pairs in their order,
/// each key and value taken by its view.
pub uninterp spec fn pending_entries(m: IndexMap<String, SoundCloudTrack>) -> Seq<(Seq<char>, TrackView)>;

/// Whether some entry of `s` has the key `k`.
pub open spec fn has_key(s: Seq<PendingEntry>, k: Seq<char>) -> bool {
    exists|i: int| 0 <= i < s.len() && #[trigger] s[i].0 == k
}

/// The position of the entry with key `k` in `s` (meaningful when there is one).
pub open spec fn key_index(s: Seq<PendingEntry>, k: Seq<char>) -> int {
    choose|i: int| 0 <= i < s.len() && #[trigger] s[i].0 == k
}

/// No two entries of `s` have the same key.
pub open spec fn keys_distinct(s: Seq<PendingEntry>) -> bool {
    forall|i: int, j: int| 0 <= i < s.len() && 0 <= j < s.len() && i != j ==> #[trigger] s[i].0 != #[trigger] s[j].0
}

/// `s` with the entry at `i` replaced by the last one, and the last one dropped.
pub open spec fn swap_removed(s: Seq<PendingEntry>, i: int) -> Seq<PendingEntry> {
    if i == s.len() - 1 {
        s.drop_last()
    } else {
        s.drop_last().update(i, s.last())
    }
}

/// `s` with the entries at `a` and `b` exchanged.
pub open spec fn swapped(s: Seq<PendingEntry>, a: int, b: int) -> Seq<PendingEntry> {
    s.update(a, s[b]).update(b, s[a])
}

/// The position of a present key lies in the sequence and holds the key.
pub proof fn lemma_key_index_range(s: Seq<PendingEntry>, k: Seq<char>)
    requires
        has_key(s, k),
    ensures
        0 <= key_index(s, k) < s.len(),
        s[key_index(s, k)].0 == k,
{
}

/// Where keys are distinct, the entry holding a key is at its position.
pub proof fn lemma_key_index(s: Seq<PendingEntry>, k: Seq<char>, i: int)
    requires
        keys_distinct(s),
        0 <= i < s.len(),
        s[i].0 == k,
    ensures
        has_key(s, k),
        key_index(s, k) == i,
{
    assert(has_key(s, k));
    let j = key_index(s, k);
    assert(s[j].0 == k);
}

// ---- the calls into `indexmap` ----

/// `IndexMap::new`: an empty map.
#[verifier::external_body]
fn map_new() -> (m: IndexMap<String, SoundCloudTrack>)
    ensures
        pending_entries(m) == Seq::<PendingEntry>::empty(),
{
    IndexMap::new()
}

/// `IndexMap::len`: the number of entries.
#[verifier::external_body]
fn map_len(m: &IndexMap<String, SoundCloudTrack>) -> (n: usize)
    ensures
        n == pending_entries(*m).len(),
{
    m.len()
}

/// `IndexMap::is_empty`: whether there is no entry.
#[verifier::external_body]
fn map_is_empty(m: &IndexMap<String, SoundCloudTrack>) -> (b: bool)
    ensures
        b == (pending_entries(*m).len() == 0),
{
    m.is_empty()
}

/// `IndexMap::clear`: every entry is removed.
#[verifier::external_body]
fn map_clear(m: &mut IndexMap<String, SoundCloudTrack>)
    ensures
        pending_entries(*final(m)) == Seq::<PendingEntry>::empty(),
{
    m.clear()
}

/// `IndexMap::insert`: where the key is present its value is replaced in its
/// place and the old value returned; else the pair is appended last.
#[verifier::external_body]
fn map_insert(m: &mut IndexMap<String, SoundCloudTrack>, k: String, v: SoundCloudTrack) -> (r: Option<SoundCloudTrack>)
    ensures
        has_key(pending_entries(*old(m)), k@) ==> {
            let i = key_index(pending_entries(*old(m)), k@);
            &&& pending_entries(*final(m)) == pending_entries(*old(m)).update(i, (k@, v@))
            &&& r matches Some(o) && o@ == pending_entries(*old(m))[i].1
        },
        !has_key(pending_entries(*old(m)), k@) ==> {
            &&& pending_entries(*final(m)) == pending_entries(*old(m)).push((k@, v@))
            &&& r is None
        },
{
    m.insert(k, v)
}

/// `IndexMap::shift_insert`: the pair is put at `index`, shifting the later
/// entries; a present key is moved there with its new value. It panics when
/// `index` is past the end, or at the end for a present key.
#[verifier::external_body]
fn map_shift_insert(m: &mut IndexMap<String, SoundCloudTrack>, index: usize, k: String, v: SoundCloudTrack) -> (r: Option<SoundCloudTrack>)
    requires
        index <= pending_entries(*old(m)).len(),
        has_key(pending_entries(*old(m)), k@) ==> index < pending_entries(*old(m)).len(),
    ensures
        has_key(pending_entries(*old(m)), k@) ==> {
            let i = key_index(pending_entries(*old(m)), k@);
            &&& pending_entries(*final(m)) == pending_entries(*old(m)).remove(i).insert(index as int, (k@, v@))
            &&& r matches Some(o) && o@ == pending_entries(*old(m))[i].1
        },
        !has_key(pending_entries(*old(m)), k@) ==> {
            &&& pending_entries(*final(m)) == pending_entries(*old(m)).insert(index as int, (k@, v@))
            &&& r is None
        },
{
    m.shift_insert(index, k, v)
}

/// `IndexMap::shift_remove_index`: the entry at `index` is taken out and the
/// later ones shift down; `None` when there is no such entry.
#[verifier::external_body]
fn map_shift_remove_index(m: &mut IndexMap<String, SoundCloudTrack>, index: usize) -> (r: Option<(String, SoundCloudTrack)>)
    ensures
        index < pending_entries(*old(m)).len() ==> {
            &&& pending_entries(*final(m)) == pending_entries(*old(m)).remove(index as int)
            &&& r matches Some(e) && (e.0@, e.1@) == pending_entries(*old(m))[index as int]
        },
        index >= pending_entries(*old(m)).len() ==> {
            &&& pending_entries(*final(m)) == pending_entries(*old(m))
            &&& r is None
        },
{
    m.shift_remove_index(index)
}

/// `IndexMap::swap_remove_index`: the entry at `index` is taken out and the
/// last one takes its place; `None` when there is no such entry.
#[verifier::external_body]
fn map_swap_remove_index(m: &mut IndexMap<String, SoundCloudTrack>, index: usize) -> (r: Option<(String, SoundCloudTrack)>)
    ensures
        index < pending_entries(*old(m)).len() ==> {
            &&& pending_entries(*final(m)) == swap_removed(pending_entries(*old(m)), index as int)
            &&& r matches Some(e) && (e.0@, e.1@) == pending_entries(*old(m))[index as int]
        },
        index >= pending_entries(*old(m)).len() ==> {
            &&& pending_entries(*final(m)) == pending_entries(*old(m))
            &&& r is None
        },
{
    m.swap_remove_index(index)
}

/// `IndexMap::shift_remove`: the entry with the key is taken out and the later
/// ones shift down; its value is returned, `None` when there is none.
#[verifier::external_body]
fn map_shift_remove(m: &mut IndexMap<String, SoundCloudTrack>, k: &str) -> (r: Option<SoundCloudTrack>)
    ensures
        has_key(pending_entries(*old(m)), k@) ==> {
            let i = key_index(pending_entries(*old(m)), k@);
            &&& pending_entries(*final(m)) == pending_entries(*old(m)).remove(i)
            &&& r matches Some(o) && o@ == pending_entries(*old(m))[i].1
        },
        !has_key(pending_entries(*old(m)), k@) ==> {
            &&& pending_entries(*final(m)) == pending_entries(*old(m))
            &&& r is None
        },
{
    m.shift_remove(k)
}

/// `IndexMap::get`: a reference to the value stored for the key.
#[verifier::external_body]
fn map_get<'a>(m: &'a IndexMap<String, SoundCloudTrack>, k: &str) -> (r: Option<&'a SoundCloudTrack>)
    ensures
        has_key(pending_entries(*m), k@) ==> r is Some && r.unwrap()@ == pending_entries(*m)[key_index(pending_entries(*m), k@)].1,
        !has_key(pending_entries(*m), k@) ==> r is None,
{
    m.get(k)
}

/// `IndexMap::contains_key`: whether an entry has the key.
#[verifier::external_body]
fn map_contains_key(m: &IndexMap<String, SoundCloudTrack>, k: &str) -> (b: bool)
    ensures
        b == has_key(pending_entries(*m), k@),
{
    m.contains_key(k)
}

/// `IndexMap::get_index_of`: the position of the entry with the key.
#[verifier::external_body]
fn map_get_index_of(m: &IndexMap<String, SoundCloudTrack>, k: &str) -> (r: Option<usize>)
    ensures
        has_key(pending_entries(*m), k@) ==> r == Some(key_index(pending_entries(*m), k@) as usize),
        !has_key(pending_entries(*m), k@) ==> r is None,
{
    m.get_index_of(k)
}

/// `IndexMap::get_index`: the entry at a position.
#[verifier::external_body]
fn map_get_index(m: &IndexMap<String, SoundCloudTrack>, index: usize) -> (r: Option<(&String, &SoundCloudTrack)>)
    ensures
        index < pending_entries(*m).len() ==> r is Some && (r.unwrap().0@, r.unwrap().1@) == pending_entries(*m)[index as int],
        index >= pending_entries(*m).len() ==> r is None,
{
    m.get_index(index)
}

/// `IndexMap::swap_indices`: the entries at two positions change places. It
/// panics on a position past the end.
#[verifier::external_body]
fn map_swap_indices(m: &mut IndexMap<String, SoundCloudTrack>, a: usize, b: usize)
    requires
        a < pending_entries(*old(m)).len(),
        b < pending_entries(*old(m)).len(),
    ensures
        pending_entries(*final(m)) == swapped(pending_entries(*old(m)), a as int, b as int),
{
    m.swap_indices(a, b)
}

/// The entries of a vector of key-value pairs, each taken by its view.
pub open spec fn entries_view(v: Seq<(String, SoundCloudTrack)>) -> Seq<PendingEntry> {
    v.map_values(|e: (String, SoundCloudTrack)| (e.0@, e.1@))
}

/// Reordering keeps keys distinct.
pub proof fn lemma_permutes_distinct(new: Seq<PendingEntry>, old: Seq<PendingEntry>)
    requires
        permutes(new, old),
        keys_distinct(old),
    ensures
        keys_distinct(new),
{
    let p = choose|p: Seq<int>|
        is_permutation(p, old.len()) && new.len() == old.len() && forall|i: int|
            0 <= i < new.len() ==> #[trigger] new[i] == old[p[i]];
    assert forall|i: int, j: int| 0 <= i < new.len() && 0 <= j < new.len() && i != j implies #[trigger] new[i].0 != #[trigger] new[j].0 by {
        assert(new[i] == old[p[i]]);
        assert(new[j] == old[p[j]]);
        if i < j {
            assert(p[i] != p[j]);
        } else {
            assert(p[j] != p[i]);
        }
        assert(0 <= p[i] < old.len());
        assert(0 <= p[j] < old.len());
    }
}

/// A reordering of pairs is a reordering of their views, by the same permutation.
pub proof fn lemma_permutes_view(new: Seq<(String, SoundCloudTrack)>, old: Seq<(String, SoundCloudTrack)>)
    requires
        permutes(new, old),
    ensures
        permutes(entries_view(new), entries_view(old)),
{
    let p = choose|p: Seq<int>|
        is_permutation(p, old.len()) && new.len() == old.len() && forall|i: int|
            0 <= i < new.len() ==> #[trigger] new[i] == old[p[i]];
    assert(is_permutation(p, entries_view(old).len())) by {
        assert forall|j: int| 0 <= j < old.len() implies #[trigger] crate::random::hits(p, entries_view(old).len(), j) by {
            assert(crate::random::hits(p, old.len(), j));
        }
    }
    assert forall|i: int| 0 <= i < entries_view(new).len() implies #[trigger] entries_view(new)[i] == entries_view(old)[p[i]] by {
        assert(new[i] == old[p[i]]);
    }
}

/// The queue of tracks waiting to be played, in play order, keyed by track id.
pub struct PendingQueue {
    inner: IndexMap<String, SoundCloudTrack>,
}

impl View for PendingQueue {
    type V = Seq<PendingEntry>;

    closed spec fn view(&self) -> Seq<PendingEntry> {
        pending_entries(self.inner)
    }
}

/// Builds a map from pairs whose keys are distinct, in their order.
fn map_from_entries(arr: &Vec<(String, SoundCloudTrack)>) -> (m: IndexMap<String, SoundCloudTrack>)
    requires
        keys_distinct(entries_view(arr@)),
    ensures
        pending_entries(m) == entries_view(arr@),
{
    let ghost all = entries_view(arr@);
    let mut m = map_new();
    let n = arr.len();
    let mut i: usize = 0;
    while i < n
        invariant
            n == arr@.len(),
            i <= n,
            all == entries_view(arr@),
            keys_distinct(all),
            pending_entries(m) == all.subrange(0, i as int),
        decreases n - i,
    {
        let k = arr[i].0.clone();
        let v = arr[i].1.clone();
        proof {
            assert(all[i as int] == (k@, v@));
            if has_key(all.subrange(0, i as int), k@) {
                let j = key_index(all.subrange(0, i as int), k@);
                assert(all[j].0 == all[i as int].0);
            }
        }
        let _ = map_insert(&mut m, k, v);
        i = i + 1;
        assert(pending_entries(m) =~= all.subrange(0, i as int));
    }
    assert(all.subrange(0, n as int) =~= all);
    m
}

impl PendingQueue {
    /// No track id occurs twice in the queue.
    #[verifier::type_invariant]
    spec fn inv(self) -> bool {
        keys_distinct(pending_entries(self.inner))
    }

    /// Takes the map out, leaving an empty one in its place.
    fn take_inner(&mut self) -> (m: IndexMap<String, SoundCloudTrack>)
        ensures
            pending_entries(m) == old(self)@,
            keys_distinct(pending_entries(m)),
            final(self)@ == Seq::<PendingEntry>::empty(),
    {
        proof { use_type_invariant(&*self); }
        let mut m = map_new();
        std::mem::swap(&mut m, &mut self.inner);
        m
    }

    /// Puts a map with distinct keys in.
    fn put_inner(&mut self, m: IndexMap<String, SoundCloudTrack>)
        requires
            keys_distinct(pending_entries(m)),
        ensures
            final(self)@ == pending_entries(m),
    {
        self.inner = m;
    }

    /// Copies of the entries, in their order.
    fn entries(&self) -> (v: Vec<(String, SoundCloudTrack)>)
        ensures
            entries_view(v@) == self@,
    {
        let n = map_len(&self.inner);
        let mut v: Vec<(String, SoundCloudTrack)> = Vec::new();
        let mut i: usize = 0;
        while i < n
            invariant
                n == self@.len(),
                i <= n,
                v@.len() == i,
                entries_view(v@) == self@.subrange(0, i as int),
            decreases n - i,
        {
            match map_get_index(&self.inner, i) {
                Some((k, t)) => v.push((k.clone(), t.clone())),
                None => {},
            }
            i = i + 1;
            assert(entries_view(v@) =~= self@.subrange(0, i as int));
        }
        assert(self@.subrange(0, n as int) =~= self@);
        v
    }

    /// An empty queue.
    pub fn new() -> (q: Self)
        ensures
            q@ == Seq::<PendingEntry>::empty(),
    {
        PendingQueue { inner: map_new() }
    }

    /// Puts the entries in a random order. Every entry stays, once.
    pub fn shuffle(&mut self)
        ensures
            permutes(final(self)@, old(self)@),
    {
        proof { use_type_invariant(&*self); }
        let mut rng = thread_rng();
        let mut arr = self.entries();
        let ghost before = entries_view(arr@);
        let ghost arr0 = arr@;
        shuffle_vec(&mut arr, &mut rng);
        proof {
            lemma_permutes_view(arr@, arr0);
            lemma_permutes_distinct(entries_view(arr@), before);
        }
        let shuffled = map_from_entries(&arr);
        self.put_inner(shuffled);
    }

    /// Removes every entry.
    pub fn clear(&mut self)
        ensures
            final(self)@ == Seq::<PendingEntry>::empty(),
    {
        let mut m = self.take_inner();
        map_clear(&mut m);
        self.put_inner(m);
    }

    /// Puts the track first. A track with the same id already queued is moved
    /// to the front with the new value.
    pub fn push_front(&mut self, id: String, value: SoundCloudTrack)
        ensures
            has_key(old(self)@, id@) ==> final(self)@ == old(self)@.remove(key_index(old(self)@, id@)).insert(0, (id@, value@)),
            !has_key(old(self)@, id@) ==> final(self)@ == old(self)@.insert(0, (id@, value@)),
    {
        let ghost k = id@;
        let ghost v = value@;
        let mut m = self.take_inner();
        let ghost s = pending_entries(m);
        let _ = map_shift_insert(&mut m, 0, id, value);
        proof {
            let r = if has_key(s, k) { s.remove(key_index(s, k)) } else { s };
            assert(!has_key(r, k)) by {
                if has_key(r, k) {
                    let j = key_index(r, k);
                    if has_key(s, k) {
                        let i = key_index(s, k);
                        if j < i {
                            assert(r[j] == s[j]);
                        } else {
                            assert(r[j] == s[j + 1]);
                        }
                    }
                }
            }
            assert forall|a: int, b: int| 0 <= a < r.len() && 0 <= b < r.len() && a != b implies #[trigger] r[a].0 != #[trigger] r[b].0 by {
                if has_key(s, k) {
                    let i = key_index(s, k);
                    let a2 = if a < i { a } else { a + 1 };
                    let b2 = if b < i { b } else { b + 1 };
                    assert(r[a] == s[a2]);
                    assert(r[b] == s[b2]);
                }
            }
            let f = r.insert(0, (k, v));
            assert(f == pending_entries(m));
            assert forall|a: int, b: int| 0 <= a < f.len() && 0 <= b < f.len() && a != b implies #[trigger] f[a].0 != #[trigger] f[b].0 by {
                if a == 0 {
                    assert(f[b] == r[b - 1]);
                } else if b == 0 {
                    assert(f[a] == r[a - 1]);
                } else {
                    assert(f[a] == r[a - 1]);
                    assert(f[b] == r[b - 1]);
                }
            }
        }
        self.put_inner(m);
    }

    /// Queues the track last; see `push`.
    pub fn push_back(&mut self, id: String, value: SoundCloudTrack)
        ensures
            has_key(old(self)@, id@) ==> final(self)@ == old(self)@.update(key_index(old(self)@, id@), (id@, value@)),
            !has_key(old(self)@, id@) ==> final(self)@ == old(self)@.push((id@, value@)),
    {
        self.push(id, value);
    }

    /// Takes the first entry out.
    pub fn pop_front(&mut self) -> (r: Option<(String, SoundCloudTrack)>)
        ensures
            old(self)@.len() > 0 ==> {
                &&& r matches Some(e) && (e.0@, e.1@) == old(self)@[0]
                &&& final(self)@ == old(self)@.remove(0)
            },
            old(self)@.len() == 0 ==> r is None && final(self)@ == old(self)@,
    {
        let mut m = self.take_inner();
        let ghost s = pending_entries(m);
        let r = map_shift_remove_index(&mut m, 0);
        proof {
            if s.len() > 0 {
                lemma_remove_distinct(s, 0);
            }
        }
        self.put_inner(m);
        r
    }

    /// Takes the last entry out.
    pub fn pop_back(&mut self) -> (r: Option<(String, SoundCloudTrack)>)
        ensures
            old(self)@.len() > 0 ==> {
                &&& r matches Some(e) && (e.0@, e.1@) == old(self)@.last()
                &&& final(self)@ == old(self)@.drop_last()
            },
            old(self)@.len() == 0 ==> r is None && final(self)@ == old(self)@,
    {
        let len = map_len(&self.inner);
        if len == 0 {
            return None;
        }
        let last = len - 1;
        let mut m = self.take_inner();
        let ghost s = pending_entries(m);
        let r = map_swap_remove_index(&mut m, last);
        proof { lemma_remove_distinct(s, last as int); }
        self.put_inner(m);
        r
    }

    /// Queues the track: last when its id is new, else in the place of the
    /// entry with that id, whose value it replaces.
    pub fn push(&mut self, id: String, value: SoundCloudTrack)
        ensures
            has_key(old(self)@, id@) ==> final(self)@ == old(self)@.update(key_index(old(self)@, id@), (id@, value@)),
            !has_key(old(self)@, id@) ==> final(self)@ == old(self)@.push((id@, value@)),
    {
        let ghost k = id@;
        let mut m = self.take_inner();
        let ghost s = pending_entries(m);
        let _ = map_insert(&mut m, id, value);
        proof {
            let f = pending_entries(m);
            if has_key(s, k) {
                let i = key_index(s, k);
                assert forall|a: int, b: int| 0 <= a < f.len() && 0 <= b < f.len() && a != b implies #[trigger] f[a].0 != #[trigger] f[b].0 by {
                    if a != i && b != i {
                        assert(f[a] == s[a] && f[b] == s[b]);
                    } else if a == i {
                        assert(f[b] == s[b]);
                        assert(s[i].0 == k);
                    } else {
                        assert(f[a] == s[a]);
                        assert(s[i].0 == k);
                    }
                }
            } else {
                assert forall|a: int, b: int| 0 <= a < f.len() && 0 <= b < f.len() && a != b implies #[trigger] f[a].0 != #[trigger] f[b].0 by {
                    if a < s.len() && b < s.len() {
                        assert(f[a] == s[a] && f[b] == s[b]);
                    } else if a < s.len() {
                        assert(f[a] == s[a]);
                    } else {
                        assert(f[b] == s[b]);
                    }
                }
            }
        }
        self.put_inner(m);
    }

    /// Takes the entry with the id out, keeping the order of the others.
    pub fn remove(&mut self, id: &str) -> (r: Option<SoundCloudTrack>)
        ensures
            has_key(old(self)@, id@) ==> {
                &&& final(self)@ == old(self)@.remove(key_index(old(self)@, id@))
                &&& r matches Some(v) && v@ == old(self)@[key_index(old(self)@, id@)].1
            },
            !has_key(old(self)@, id@) ==> r is None && final(self)@ == old(self)@,
    {
        let mut m = self.take_inner();
        let ghost s = pending_entries(m);
        let r = map_shift_remove(&mut m, id);
        proof {
            if has_key(s, id@) {
                lemma_remove_distinct(s, key_index(s, id@));
            }
        }
        self.put_inner(m);
        r
    }

    /// A copy of the track queued under the id.
    pub fn get(&self, id: &str) -> (r: Option<SoundCloudTrack>)
        ensures
            has_key(self@, id@) ==> r is Some && r.unwrap()@ == self@[key_index(self@, id@)].1,
            !has_key(self@, id@) ==> r is None,
    {
        match map_get(&self.inner, id) {
            Some(t) => Some(t.clone()),
            None => None,
        }
    }

    /// Whether a track with the id is queued.
    pub fn contains(&self, id: &str) -> (b: bool)
        ensures
            b == has_key(self@, id@),
    {
        map_contains_key(&self.inner, id)
    }

    /// Exchanges the entries at two positions; `false`, and nothing changed,
    /// when either position is past the end.
    pub fn swap_by_index(&mut self, index_a: usize, index_b: usize) -> (b: bool)
        ensures
            b == (index_a < old(self)@.len() && index_b < old(self)@.len()),
            b ==> final(self)@ == swapped(old(self)@, index_a as int, index_b as int),
            !b ==> final(self)@ == old(self)@,
    {
        let len = map_len(&self.inner);
        if index_a < len && index_b < len {
            let mut m = self.take_inner();
            let ghost s = pending_entries(m);
            map_swap_indices(&mut m, index_a, index_b);
            proof { lemma_swapped_distinct(s, index_a as int, index_b as int); }
            self.put_inner(m);
            true
        } else {
            false
        }
    }

    /// Exchanges the entries of two ids; `false`, and nothing changed, when
    /// either id is not queued.
    pub fn swap(&mut self, id_a: &str, id_b: &str) -> (b: bool)
        ensures
            b == (has_key(old(self)@, id_a@) && has_key(old(self)@, id_b@)),
            b ==> final(self)@ == swapped(old(self)@, key_index(old(self)@, id_a@), key_index(old(self)@, id_b@)),
            !b ==> final(self)@ == old(self)@,
    {
        proof {
            if has_key(old(self)@, id_a@) {
                lemma_key_index_range(old(self)@, id_a@);
            }
            if has_key(old(self)@, id_b@) {
                lemma_key_index_range(old(self)@, id_b@);
            }
        }
        // The length bounds the positions below by `usize`.
        let _len = map_len(&self.inner);
        let a = map_get_index_of(&self.inner, id_a);
        let b = map_get_index_of(&self.inner, id_b);
        match (a, b) {
            (Some(a), Some(b)) => {
                let mut m = self.take_inner();
                let ghost s = pending_entries(m);
                map_swap_indices(&mut m, a, b);
                proof { lemma_swapped_distinct(s, a as int, b as int); }
                self.put_inner(m);
                true
            },
            _ => false,
        }
    }

    /// Applies `f` to the track queued under the id.
    pub fn with<F, R>(&self, id: &str, f: F) -> (r: Option<R>)
        where
            F: FnOnce(&SoundCloudTrack) -> R,
        requires
            forall|t: &SoundCloudTrack| #[trigger] f.requires((t,)),
        ensures
            !has_key(self@, id@) ==> r is None,
            has_key(self@, id@) ==> exists|t: SoundCloudTrack| {
                &&& t@ == self@[key_index(self@, id@)].1
                &&& r matches Some(x) && f.ensures((&t,), x)
            },
    {
        match map_get(&self.inner, id) {
            Some(t) => {
                let x = f(t);
                Some(x)
            },
            None => None,
        }
    }

    /// A copy of the map, for readers that must not hold the queue.
    pub fn snapshot(&self) -> (m: IndexMap<String, SoundCloudTrack>)
        ensures
            pending_entries(m) == self@,
    {
        proof { use_type_invariant(self); }
        let v = self.entries();
        map_from_entries(&v)
    }

    /// The entry at a position, for readers that walk the queue in order.
    pub fn entry_at(&self, index: usize) -> (r: Option<(&String, &SoundCloudTrack)>)
        ensures
            index < self@.len() ==> r is Some && (r.unwrap().0@, r.unwrap().1@) == self@[index as int],
            index >= self@.len() ==> r is None,
    {
        map_get_index(&self.inner, index)
    }

    /// The number of queued tracks.
    pub fn len(&self) -> (n: usize)
        ensures
            n == self@.len(),
    {
        map_len(&self.inner)
    }

    /// Whether nothing is queued.
    pub fn is_empty(&self) -> (b: bool)
        ensures
            b == (self@.len() == 0),
    {
        map_is_empty(&self.inner)
    }
}

proof fn lemma_remove_distinct(s: Seq<PendingEntry>, i: int)
    requires
        keys_distinct(s),
        0 <= i < s.len(),
    ensures
        keys_distinct(s.remove(i)),
        keys_distinct(swap_removed(s, i)),
{
    let r = s.remove(i);
    assert forall|a: int, b: int| 0 <= a < r.len() && 0 <= b < r.len() && a != b implies #[trigger] r[a].0 != #[trigger] r[b].0 by {
        let a2 = if a < i { a } else { a + 1 };
        let b2 = if b < i { b } else { b + 1 };
        assert(r[a] == s[a2]);
        assert(r[b] == s[b2]);
    }
    let w = swap_removed(s, i);
    let n = s.len() - 1;
    assert forall|a: int, b: int| 0 <= a < w.len() && 0 <= b < w.len() && a != b implies #[trigger] w[a].0 != #[trigger] w[b].0 by {
        let a2 = if a == i { n } else { a };
        let b2 = if b == i { n } else { b };
        assert(w[a] == s[a2]);
        assert(w[b] == s[b2]);
    }
}

proof fn lemma_swapped_distinct(s: Seq<PendingEntry>, x: int, y: int)
    requires
        keys_distinct(s),
        0 <= x < s.len(),
        0 <= y < s.len(),
    ensures
        keys_distinct(swapped(s, x, y)),
{
    let w = swapped(s, x, y);
    assert forall|a: int, b: int| 0 <= a < w.len() && 0 <= b < w.len() && a != b implies #[trigger] w[a].0 != #[trigger] w[b].0 by {
        let a2 = if a == y { x } else if a == x { y } else { a };
        let b2 = if b == y { x } else if b == x { y } else { b };
        assert(w[a] == s[a2]);
        assert(w[b] == s[b2]);
    }
}

/// Pushing a new track to the back does not change what leaves the front
/// next: on a non-empty queue the front entry leaves and the new track stays
/// last; on an empty queue the new track itself leaves and nothing stays.
pub proof fn law_push_back_pop_front(s: Seq<PendingEntry>, k: Seq<char>, v: TrackView)
    requires
        keys_distinct(s),
        !has_key(s, k),
    ensures
        s.len() > 0 ==> s.push((k, v))[0] == s[0] && s.push((k, v)).remove(0) == s.remove(0).push((k, v)),
        s.len() == 0 ==> s.push((k, v))[0] == (k, v) && s.push((k, v)).remove(0) == s,
        keys_distinct(s.push((k, v))),
{
    if s.len() > 0 {
        assert(s.push((k, v)).remove(0) =~= s.remove(0).push((k, v)));
    } else {
        assert(s.push((k, v)).remove(0) =~= s);
    }
    let f = s.push((k, v));
    assert forall|a: int, b: int| 0 <= a < f.len() && 0 <= b < f.len() && a != b implies #[trigger] f[a].0 != #[trigger] f[b].0 by {
        if a < s.len() && b < s.len() {
            assert(f[a] == s[a] && f[b] == s[b]);
        } else if a < s.len() {
            assert(f[a] == s[a]);
        } else {
            assert(f[b] == s[b]);
        }
    }
}

/// Putting a new track at the front and taking the front out gives the
/// track back and leaves the queue as it was.
pub proof fn law_push_front_pop_front(s: Seq<PendingEntry>, k: Seq<char>, v: TrackView)
    requires
        !has_key(s, k),
    ensures
        s.insert(0, (k, v))[0] == (k, v),
        s.insert(0, (k, v)).remove(0) == s,
{
    assert(s.insert(0, (k, v)).remove(0) =~= s);
}

/// After a track is removed by its id, no entry has that id, and the other
/// entries keep their order.
pub proof fn law_remove_forgets(s: Seq<PendingEntry>, k: Seq<char>)
    requires
        keys_distinct(s),
        has_key(s, k),
    ensures
        !has_key(s.remove(key_index(s, k)), k),
        s.remove(key_index(s, k)).len() == s.len() - 1,
{
    let i = key_index(s, k);
    let r = s.remove(i);
    if has_key(r, k) {
        let j = key_index(r, k);
        if j < i {
            assert(r[j] == s[j]);
        } else {
            assert(r[j] == s[j + 1]);
        }
    }
}

/// Exchanging the same two positions twice leaves the queue as it was.
pub proof fn law_swap_twice(s: Seq<PendingEntry>, a: int, b: int)
    requires
        0 <= a < s.len(),
        0 <= b < s.len(),
    ensures
        swapped(swapped(s, a, b), a, b) == s,
{
    assert(swapped(swapped(s, a, b), a, b) =~= s);
}

/// Queuing a track whose id is queued keeps the length and the place of
/// every entry; only that entry's track changes.
pub proof fn law_push_existing_in_place(s: Seq<PendingEntry>, k: Seq<char>, v: TrackView)
    requires
        keys_distinct(s),
        has_key(s, k),
    ensures
        s.update(key_index(s, k), (k, v)).len() == s.len(),
        forall|i: int| 0 <= i < s.len() ==> #[trigger] s.update(key_index(s, k), (k, v))[i].0 == s[i].0,
{
    lemma_key_index_range(s, k);
}

/// Shuffling keeps exactly the queued ids: an id is queued after a shuffle
/// exactly when it was before.
pub proof fn law_shuffle_keeps_ids(new: Seq<PendingEntry>, old: Seq<PendingEntry>, k: Seq<char>)
    requires
        permutes(new, old),
    ensures
        has_key(new, k) == has_key(old, k),
{
    let p = choose|p: Seq<int>|
        is_permutation(p, old.len()) && new.len() == old.len() && forall|i: int|
            0 <= i < new.len() ==> #[trigger] new[i] == old[p[i]];
    if has_key(new, k) {
        let i = key_index(new, k);
        assert(new[i] == old[p[i]]);
        assert(old[p[i]].0 == k);
    }
    if has_key(old, k) {
        let j = key_index(old, k);
        assert(0 <= j < old.len());
        assert(crate::random::hits(p, old.len(), j));
        let inv = choose|i: int| 0 <= i < old.len() && #[trigger] p[i] == j;
        assert(new[inv] == old[p[inv]]);
        assert(new[inv].0 == k);
    }
}

} // verus!
