//! The chart image cache of the terminal history grid: one encoded image per
//! panel, rebuilt only when the data version or the panel size changed.

use vstd::prelude::*;

use crate::text::str_equals;

verus! {

/// What a cached chart image was built for: the data version and the panel
/// size in cells.
#[derive(Clone, Copy, Debug, PartialEq, Eq, Structural)]
pub struct ChartKey {
    /// Data version (the frame count) the image shows.
    pub version: u64,
    /// Panel width in cells.
    pub width: u16,
    /// Panel height in cells.
    pub height: u16,
}

/// The panel → (key, image) map that parallel id and entry lists describe;
/// a later entry for an id overrides an earlier one.
pub open spec fn cache_map<P>(ids: Seq<Seq<char>>, vals: Seq<(ChartKey, P)>) -> Map<
    Seq<char>,
    (ChartKey, P),
>
    decreases ids.len(),
{
    if ids.len() == 0 {
        Map::empty()
    } else {
        cache_map(ids.drop_last(), vals.drop_last()).insert(ids.last(), vals.last())
    }
}

/// Ids and entries pair up one to one, and no id occurs twice.
pub open spec fn cache_lists_wf<P>(ids: Seq<Seq<char>>, vals: Seq<(ChartKey, P)>) -> bool {
    &&& ids.len() == vals.len()
    &&& forall|i: int, j: int| 0 <= i < j < ids.len() ==> ids[i] != ids[j]
}

/// Cached chart images by panel id.
pub struct ImageCache<P> {
    ids: Vec<String>,
    vals: Vec<(ChartKey, P)>,
}

impl<P> ImageCache<P> {
    /// The panel ids, as character sequences.
    spec fn id_seq(&self) -> Seq<Seq<char>> {
        self.ids@.map_values(|s: String| s@)
    }

    /// No panel id is listed twice, and each has its entry.
    pub closed spec fn wf(&self) -> bool {
        cache_lists_wf(self.id_seq(), self.vals@)
    }
}

impl<P> View for ImageCache<P> {
    type V = Map<Seq<char>, (ChartKey, P)>;

    closed spec fn view(&self) -> Map<Seq<char>, (ChartKey, P)> {
        cache_map(self.id_seq(), self.vals@)
    }
}

/// Each listed id maps to its entry.
proof fn lemma_cache_map_index<P>(ids: Seq<Seq<char>>, vals: Seq<(ChartKey, P)>, i: int)
    requires
        cache_lists_wf(ids, vals),
        0 <= i < ids.len(),
    ensures
        cache_map(ids, vals).contains_key(ids[i]),
        cache_map(ids, vals)[ids[i]] == vals[i],
    decreases ids.len(),
{
    if i < ids.len() - 1 {
        lemma_cache_map_index(ids.drop_last(), vals.drop_last(), i);
        assert(ids.drop_last()[i] == ids[i]);
        assert(ids[i] != ids[ids.len() - 1]);
    }
}

/// An id that is not listed is not in the map.
proof fn lemma_cache_map_absent<P>(ids: Seq<Seq<char>>, vals: Seq<(ChartKey, P)>, k: Seq<char>)
    requires
        ids.len() == vals.len(),
        forall|i: int| 0 <= i < ids.len() ==> ids[i] != k,
    ensures
        !cache_map(ids, vals).contains_key(k),
    decreases ids.len(),
{
    if ids.len() > 0 {
        assert(ids[ids.len() - 1] != k);
        assert forall|i: int| 0 <= i < ids.len() - 1 implies ids.drop_last()[i] != k by {
            assert(ids.drop_last()[i] == ids[i]);
        }
        lemma_cache_map_absent(ids.drop_last(), vals.drop_last(), k);
    }
}

/// Replacing the entry of a listed id is inserting into the map.
proof fn lemma_cache_map_update<P>(
    ids: Seq<Seq<char>>,
    vals: Seq<(ChartKey, P)>,
    i: int,
    v: (ChartKey, P),
)
    requires
        cache_lists_wf(ids, vals),
        0 <= i < ids.len(),
    ensures
        cache_map(ids, vals.update(i, v)) == cache_map(ids, vals).insert(ids[i], v),
    decreases ids.len(),
{
    let n = ids.len() - 1;
    let inner = cache_map(ids.drop_last(), vals.drop_last());
    if i == n {
        assert(vals.update(i, v).drop_last() =~= vals.drop_last());
        assert(cache_map(ids, vals.update(i, v)) =~= inner.insert(ids[n], v));
        assert(cache_map(ids, vals).insert(ids[i], v) =~= inner.insert(ids[n], v));
    } else {
        assert(vals.update(i, v).drop_last() =~= vals.drop_last().update(i, v));
        assert(ids.drop_last()[i] == ids[i]);
        lemma_cache_map_update(ids.drop_last(), vals.drop_last(), i, v);
        assert(ids[i] != ids[n]);
        assert(cache_map(ids, vals.update(i, v)) =~= inner.insert(ids[i], v).insert(
            ids[n],
            vals[n],
        ));
        assert(cache_map(ids, vals.update(i, v)) =~= cache_map(ids, vals).insert(ids[i], v));
    }
}

/// Appending an entry for a new id keeps the lists well formed.
proof fn lemma_cache_lists_push<P>(
    ids: Seq<Seq<char>>,
    vals: Seq<(ChartKey, P)>,
    k: Seq<char>,
    v: (ChartKey, P),
)
    requires
        cache_lists_wf(ids, vals),
        forall|i: int| 0 <= i < ids.len() ==> ids[i] != k,
    ensures
        cache_lists_wf(ids.push(k), vals.push(v)),
        cache_map(ids.push(k), vals.push(v)) == cache_map(ids, vals).insert(k, v),
{
    assert(ids.push(k).drop_last() =~= ids);
    assert(vals.push(v).drop_last() =~= vals);
}

impl<P> ImageCache<P> {
    /// An empty cache.
    pub fn new() -> (c: Self)
        ensures
            c.wf(),
            c@ == Map::<Seq<char>, (ChartKey, P)>::empty(),
    {
        let c = ImageCache { ids: Vec::new(), vals: Vec::new() };
        assert(c.id_seq() =~= Seq::<Seq<char>>::empty());
        c
    }

    /// Position of `id` in the lists, if it is there.
    fn find(&self, id: &str) -> (r: Option<usize>)
        ensures
            match r {
                Some(i) => i < self.ids@.len() && self.id_seq()[i as int] == id@,
                None => forall|i: int| 0 <= i < self.ids@.len() ==> self.id_seq()[i] != id@,
            },
    {
        let mut i: usize = 0;
        while i < self.ids.len()
            invariant
                i <= self.ids@.len(),
                forall|j: int| 0 <= j < i ==> self.id_seq()[j] != id@,
            decreases self.ids@.len() - i,
        {
            if str_equals(self.ids[i].as_str(), id) {
                return Some(i);
            }
            i += 1;
        }
        None
    }

    /// Whether the image cached for `id` was built for `key`; when not, the
    /// panel must be re-rasterized.
    pub fn is_current(&self, id: &str, key: ChartKey) -> (b: bool)
        requires
            self.wf(),
        ensures
            b == (self@.contains_key(id@) && self@[id@].0 == key),
    {
        match self.find(id) {
            Some(i) => {
                proof {
                    lemma_cache_map_index(self.id_seq(), self.vals@, i as int);
                }
                self.vals[i].0 == key
            },
            None => {
                proof {
                    lemma_cache_map_absent(self.id_seq(), self.vals@, id@);
                }
                false
            },
        }
    }

    /// The image cached for `id`, if any.
    pub fn get(&self, id: &str) -> (r: Option<&P>)
        requires
            self.wf(),
        ensures
            self@.contains_key(id@) ==> r == Some(&self@[id@].1),
            !self@.contains_key(id@) ==> r is None,
    {
        match self.find(id) {
            Some(i) => {
                proof {
                    lemma_cache_map_index(self.id_seq(), self.vals@, i as int);
                }
                Some(&self.vals[i].1)
            },
            None => {
                proof {
                    lemma_cache_map_absent(self.id_seq(), self.vals@, id@);
                }
                None
            },
        }
    }

    /// Cache `image` for `id`, built for `key`, replacing what was there.
    pub fn store(&mut self, id: &str, key: ChartKey, image: P)
        requires
            old(self).wf(),
        ensures
            final(self).wf(),
            final(self)@ == old(self)@.insert(id@, (key, image)),
    {
        match self.find(id) {
            Some(i) => {
                proof {
                    lemma_cache_map_update(self.id_seq(), self.vals@, i as int, (key, image));
                }
                self.vals.set(i, (key, image));
            },
            None => {
                let owned = id.to_owned();
                proof {
                    lemma_cache_lists_push(self.id_seq(), self.vals@, id@, (key, image));
                    assert(self.ids@.push(owned).map_values(|s: String| s@) =~= self.id_seq().push(
                        id@,
                    ));
                }
                self.ids.push(owned);
                self.vals.push((key, image));
            },
        }
    }

    /// Make the image for `id` current for `key`: when the cached one was
    /// built for another key, or there is none, rasterize a new one with
    /// `build` and cache it; otherwise leave the cache alone.
    pub fn refresh<F: FnOnce() -> P>(&mut self, id: &str, key: ChartKey, build: F)
        requires
            old(self).wf(),
            build.requires(()),
        ensures
            final(self).wf(),
            old(self)@.contains_key(id@) && old(self)@[id@].0 == key ==> final(self)@ == old(
                self,
            )@,
            !(old(self)@.contains_key(id@) && old(self)@[id@].0 == key) ==> exists|img: P|
                build.ensures((), img) && final(self)@ == old(self)@.insert(id@, (key, img)),
    {
        if !self.is_current(id, key) {
            let img = build();
            self.store(id, key, img);
        }
    }
}

/// Once an image is stored for a panel at a key, the panel stays current for
/// that key, and reads give that image back, until it is stored again; other
/// panels are untouched.
pub proof fn lemma_stored_image_is_current<P>(
    m: Map<Seq<char>, (ChartKey, P)>,
    id: Seq<char>,
    key: ChartKey,
    img: P,
    other: Seq<char>,
)
    requires
        other != id,
    ensures
        m.insert(id, (key, img)).contains_key(id),
        m.insert(id, (key, img))[id] == (key, img),
        m.insert(id, (key, img)).contains_key(other) == m.contains_key(other),
        m.contains_key(other) ==> m.insert(id, (key, img))[other] == m[other],
{
}

} // verus!
