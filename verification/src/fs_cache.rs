//! What is remembered of a remote file system, and for how long.

use vstd::hash_map::*;
use vstd::prelude::*;

use crate::fs_path::{canonical, canonical_path, parent, parent_path};

verus! {

#[derive(Debug, Clone, Copy, PartialEq, Eq, Structural)]
pub struct FsMeta {
    pub size: u64,
    pub mode: u32,
    pub mtime: u64,
    pub is_dir: bool,
}

#[derive(Debug, Clone)]
pub struct FsEntry {
    pub name: String,
    pub meta: FsMeta,
}

/// An entry of a directory by its name and what is known of it.
pub open spec fn entry_view(e: FsEntry) -> (Seq<char>, FsMeta) {
    (e.name@, e.meta)
}

pub open spec fn entries_view(v: Seq<FsEntry>) -> Seq<(Seq<char>, FsMeta)> {
    v.map_values(|e: FsEntry| entry_view(e))
}

/// A copy of a directory listing.
pub fn copy_entries(v: &Vec<FsEntry>) -> (r: Vec<FsEntry>)
    ensures
        entries_view(r@) == entries_view(v@),
{
    let mut r: Vec<FsEntry> = Vec::new();
    let mut i: usize = 0;
    while i < v.len()
        invariant
            i <= v.len(),
            entries_view(r@) == entries_view(v@).take(i as int),
        decreases v.len() - i,
    {
        let ghost before = entries_view(r@);
        r.push(FsEntry { name: v[i].name.as_str().to_owned(), meta: v[i].meta });
        proof {
            let e = entry_view(v@[i as int]);
            assert(entry_view(r@.last()) == e);
            assert(entries_view(r@) =~= before.push(e));
            assert(entries_view(v@).take(i + 1) =~= before.push(e));
        }
        i += 1;
    }
    assert(entries_view(v@).take(i as int) =~= entries_view(v@));
    r
}

#[derive(Debug, Clone)]
pub enum CachedEntry {
    Stat(FsMeta),
    ReadDir(Vec<FsEntry>),
    NotFound,
}

/// What an entry of the cache says.
pub enum Known {
    Stat(FsMeta),
    ReadDir(Seq<(Seq<char>, FsMeta)>),
    NotFound,
}

impl View for CachedEntry {
    type V = Known;

    open spec fn view(&self) -> Known {
        match self {
            CachedEntry::Stat(m) => Known::Stat(*m),
            CachedEntry::ReadDir(v) => Known::ReadDir(entries_view(v@)),
            CachedEntry::NotFound => Known::NotFound,
        }
    }
}

/// An entry, and when it ends to hold.
#[derive(Debug)]
pub struct Slot {
    pub entry: CachedEntry,
    pub deadline: u128,
}

/// Entries without those of a place and of its directory.
pub open spec fn without_place(slots: Map<Seq<char>, Slot>, path: Seq<char>) -> Map<
    Seq<char>,
    Slot,
> {
    match parent(path) {
        Some(dir) => slots.remove(canonical(path)).remove(dir),
        None => slots.remove(canonical(path)),
    }
}

/// What is remembered for each place. Times are in milliseconds.
pub struct MetadataCache {
    pub slots: StringHashMap<Slot>,
    pub stat_ttl: u64,
    pub readdir_ttl: u64,
    pub negative_ttl: u64,
}

impl MetadataCache {
    /// What is known at a time of the place that a path names.
    pub open spec fn known(self, path: Seq<char>, now: u64) -> Option<Known> {
        if self.slots@.contains_key(canonical(path)) && self.slots@[canonical(path)].deadline
            > now {
            Some(self.slots@[canonical(path)].entry@)
        } else {
            None
        }
    }

    /// Entries are kept for as long in both.
    pub open spec fn same_times(self, other: Self) -> bool {
        self.stat_ttl == other.stat_ttl && self.readdir_ttl == other.readdir_ttl
            && self.negative_ttl == other.negative_ttl
    }

    /// What was known of a place and of its directory is forgotten, and nothing else.
    pub open spec fn forgot(self, after: Self, path: Seq<char>) -> bool {
        after.slots@ == without_place(self.slots@, path) && after.same_times(self)
    }

    /// Whether nothing but entries that do not hold any more at `now` was dropped
    /// between two states of the cache.
    pub open spec fn only_stale_dropped(self, after: Self, now: u64) -> bool {
        &&& after.same_times(self)
        &&& forall|path: Seq<char>, later: u64|
            later >= now ==> #[trigger] after.known(path, later) == self.known(path, later)
    }

    /// The times are the same, and so is what is known of every other place.
    pub open spec fn others_kept(self, after: Self, path: Seq<char>) -> bool {
        &&& after.same_times(self)
        &&& forall|other: Seq<char>, now: u64|
            canonical(other) != canonical(path) ==> #[trigger] after.known(other, now)
                == self.known(other, now)
    }

    pub fn new(stat_ttl: u64, readdir_ttl: u64, negative_ttl: u64) -> (c: Self)
        ensures
            c.slots@ == Map::<Seq<char>, Slot>::empty(),
            c.stat_ttl == stat_ttl,
            c.readdir_ttl == readdir_ttl,
            c.negative_ttl == negative_ttl,
    {
        MetadataCache { slots: StringHashMap::new(), stat_ttl, readdir_ttl, negative_ttl }
    }

    /// Five seconds for what is there, one for what is not.
    pub fn with_default_ttl() -> (c: Self)
        ensures
            c.slots@ == Map::<Seq<char>, Slot>::empty(),
            c.stat_ttl == 5000,
            c.readdir_ttl == 5000,
            c.negative_ttl == 1000,
    {
        MetadataCache::new(5000, 5000, 1000)
    }

    fn get(&mut self, path: &str, now: u64) -> (r: Option<CachedEntry>)
        ensures
            old(self).only_stale_dropped(*final(self), now),
            match (r, old(self).known(path@, now)) {
                (Some(e), Some(k)) => e@ == k,
                (None, None) => true,
                _ => false,
            },
    {
        let key = canonical_path(path);
        let live = match self.slots.get(key.as_str()) {
            Some(slot) => slot.deadline > now as u128,
            None => return None,
        };
        if !live {
            self.slots.remove(key.as_str());
            assert(old(self).only_stale_dropped(*self, now));
            return None;
        }
        match self.slots.get(key.as_str()) {
            Some(slot) => match &slot.entry {
                CachedEntry::Stat(m) => Some(CachedEntry::Stat(*m)),
                CachedEntry::ReadDir(v) => Some(CachedEntry::ReadDir(copy_entries(v))),
                CachedEntry::NotFound => Some(CachedEntry::NotFound),
            },
            None => None,
        }
    }

    /// What is known of a place: that it is not there, or what it is. A listing
    /// alone says neither.
    pub fn get_stat(&mut self, path: &str, now: u64) -> (r: Option<CachedEntry>)
        ensures
            old(self).only_stale_dropped(*final(self), now),
            match old(self).known(path@, now) {
                Some(Known::Stat(m)) => r == Some(CachedEntry::Stat(m)),
                Some(Known::NotFound) => r == Some(CachedEntry::NotFound),
                Some(Known::ReadDir(_)) => r is None,
                None => r is None,
            },
    {
        match self.get(path, now) {
            Some(CachedEntry::Stat(m)) => Some(CachedEntry::Stat(m)),
            Some(CachedEntry::NotFound) => Some(CachedEntry::NotFound),
            Some(CachedEntry::ReadDir(_)) => None,
            None => None,
        }
    }

    /// The listing of a directory, if it is known.
    pub fn get_readdir(&mut self, path: &str, now: u64) -> (r: Option<Vec<FsEntry>>)
        ensures
            old(self).only_stale_dropped(*final(self), now),
            match old(self).known(path@, now) {
                Some(Known::ReadDir(k)) => r is Some && entries_view(r->0@) == k,
                _ => r is None,
            },
    {
        match self.get(path, now) {
            Some(CachedEntry::ReadDir(v)) => Some(v),
            _ => None,
        }
    }

    fn put(&mut self, path: &str, entry: CachedEntry, ttl: u64, now: u64)
        ensures
            old(self).others_kept(*final(self), path@),
            forall|later: u64|
                #[trigger] final(self).known(path@, later) == if later < now + ttl {
                    Some(entry@)
                } else {
                    None
                },
    {
        let key = canonical_path(path);
        let deadline: u128 = now as u128 + ttl as u128;
        self.slots.insert(key, Slot { entry, deadline });
    }

    pub fn put_stat(&mut self, path: &str, meta: FsMeta, now: u64)
        ensures
            old(self).others_kept(*final(self), path@),
            forall|later: u64|
                #[trigger] final(self).known(path@, later) == if later < now + old(self).stat_ttl {
                    Some(Known::Stat(meta))
                } else {
                    None
                },
    {
        let ttl: u64 = self.stat_ttl;
        self.put(path, CachedEntry::Stat(meta), ttl, now);
    }

    pub fn put_readdir(&mut self, path: &str, entries: Vec<FsEntry>, now: u64)
        ensures
            old(self).others_kept(*final(self), path@),
            forall|later: u64|
                #[trigger] final(self).known(path@, later) == if later < now + old(
                    self).readdir_ttl {
                    Some(Known::ReadDir(entries_view(entries@)))
                } else {
                    None
                },
    {
        let ttl: u64 = self.readdir_ttl;
        self.put(path, CachedEntry::ReadDir(entries), ttl, now);
    }

    pub fn put_not_found(&mut self, path: &str, now: u64)
        ensures
            old(self).others_kept(*final(self), path@),
            forall|later: u64|
                #[trigger] final(self).known(path@, later) == if later < now + old(
                    self).negative_ttl {
                    Some(Known::NotFound)
                } else {
                    None
                },
    {
        let ttl: u64 = self.negative_ttl;
        self.put(path, CachedEntry::NotFound, ttl, now);
    }

    /// Something changed at a place: what is known of it and of its directory is
    /// forgotten, and nothing else.
    pub fn invalidate(&mut self, path: &str)
        ensures
            old(self).forgot(*final(self), path@),
    {
        let key = canonical_path(path);
        self.slots.remove(key.as_str());
        if let Some(dir) = parent_path(path) {
            self.slots.remove(dir.as_str());
        }
    }

    pub fn clear(&mut self)
        ensures
            final(self).slots@ == Map::<Seq<char>, Slot>::empty(),
            final(self).same_times(*old(self)),
    {
        self.slots.clear();
    }
}

impl Default for MetadataCache {
    fn default() -> (c: Self)
        ensures
            c.slots@ == Map::<Seq<char>, Slot>::empty(),
            c.stat_ttl == 5000,
            c.readdir_ttl == 5000,
            c.negative_ttl == 1000,
    {
        MetadataCache::with_default_ttl()
    }
}

/// After a change at a place, nothing is known of it or of its directory at any
/// time, until it is put in again.
pub proof fn change_is_seen(before: MetadataCache, after: MetadataCache, path: Seq<char>, now: u64)
    requires
        before.forgot(after, path),
    ensures
        after.known(path, now) is None,
        forall|dir: Seq<char>|
            parent(path) == Some(canonical(dir)) ==> #[trigger] after.known(dir, now) is None,
{
}

// ---- what is remembered, and for how long ----------------------------------------------------

/// What was put in of a place is what is known of it, under any spelling, for as long
/// as such entries hold and no longer.
pub proof fn what_is_put_is_known_for_a_while()
    ensures
        forall|c: &mut MetadataCache, path: &str, meta: FsMeta, now: u64, other: Seq<char>, later:
            u64|
            #![trigger call_ensures(MetadataCache::put_stat, (c, path, meta, now), ()), final(c).known(other, later)]
            call_ensures(MetadataCache::put_stat, (c, path, meta, now), ()) && canonical(other)
                == canonical(path@) ==> {
                &&& later - now < c.stat_ttl ==> final(c).known(other, later) == Some(
                    Known::Stat(meta),
                )
                &&& later - now >= c.stat_ttl ==> final(c).known(other, later) is None
            },
        forall|c: &mut MetadataCache, path: &str, now: u64, other: Seq<char>, later: u64|
            #![trigger call_ensures(MetadataCache::put_not_found, (c, path, now), ()), final(c).known(other, later)]
            call_ensures(MetadataCache::put_not_found, (c, path, now), ()) && canonical(other)
                == canonical(path@) ==> {
                &&& later - now < c.negative_ttl ==> final(c).known(other, later) == Some(
                    Known::NotFound,
                )
                &&& later - now >= c.negative_ttl ==> final(c).known(other, later) is None
            },
        forall|
            c: &mut MetadataCache,
            path: &str,
            entries: Vec<FsEntry>,
            now: u64,
            other: Seq<char>,
            later: u64,
        |
            #![trigger call_ensures(MetadataCache::put_readdir, (c, path, entries, now), ()), final(c).known(other, later)]
            call_ensures(MetadataCache::put_readdir, (c, path, entries, now), ()) && canonical(
                other,
            ) == canonical(path@) ==> {
                &&& later - now < c.readdir_ttl ==> final(c).known(other, later) == Some(
                    Known::ReadDir(entries_view(entries@)),
                )
                &&& later - now >= c.readdir_ttl ==> final(c).known(other, later) is None
            },
{
    assert forall|
        c: &mut MetadataCache,
        path: &str,
        meta: FsMeta,
        now: u64,
        other: Seq<char>,
        later: u64,
    |
        #![trigger call_ensures(MetadataCache::put_stat, (c, path, meta, now), ()), final(c).known(
            other,
            later,
        )]
        call_ensures(MetadataCache::put_stat, (c, path, meta, now), ()) && canonical(other)
            == canonical(path@) implies {
        &&& later - now < c.stat_ttl ==> final(c).known(other, later) == Some(Known::Stat(meta))
        &&& later - now >= c.stat_ttl ==> final(c).known(other, later) is None
    } by {
        assert(final(c).known(other, later) == final(c).known(path@, later));
    }
    assert forall|c: &mut MetadataCache, path: &str, now: u64, other: Seq<char>, later: u64|
        #![trigger call_ensures(MetadataCache::put_not_found, (c, path, now), ()), final(c).known(
            other,
            later,
        )]
        call_ensures(MetadataCache::put_not_found, (c, path, now), ()) && canonical(other)
            == canonical(path@) implies {
        &&& later - now < c.negative_ttl ==> final(c).known(other, later) == Some(Known::NotFound)
        &&& later - now >= c.negative_ttl ==> final(c).known(other, later) is None
    } by {
        assert(final(c).known(other, later) == final(c).known(path@, later));
    }
    assert forall|
        c: &mut MetadataCache,
        path: &str,
        entries: Vec<FsEntry>,
        now: u64,
        other: Seq<char>,
        later: u64,
    |
        #![trigger call_ensures(MetadataCache::put_readdir, (c, path, entries, now), ()), final(c).known(other, later)]
        call_ensures(MetadataCache::put_readdir, (c, path, entries, now), ()) && canonical(other)
            == canonical(path@) implies {
        &&& later - now < c.readdir_ttl ==> final(c).known(other, later) == Some(
            Known::ReadDir(entries_view(entries@)),
        )
        &&& later - now >= c.readdir_ttl ==> final(c).known(other, later) is None
    } by {
        assert(final(c).known(other, later) == final(c).known(path@, later));
    }
}

/// Asking gives what is known, and asking does not make anything forgotten that still
/// holds.
pub proof fn asking_gives_what_is_known()
    ensures
        forall|c: &mut MetadataCache, path: &str, now: u64, r: Option<CachedEntry>|
            #[trigger] call_ensures(MetadataCache::get_stat, (c, path, now), r) ==> {
                &&& match r {
                    Some(CachedEntry::Stat(m)) => c.known(path@, now) == Some(Known::Stat(m)),
                    Some(CachedEntry::NotFound) => c.known(path@, now) == Some(Known::NotFound),
                    Some(CachedEntry::ReadDir(_)) => false,
                    None => c.known(path@, now) is None || c.known(path@, now)->0 is ReadDir,
                }
            },
        forall|c: &mut MetadataCache, path: &str, now: u64, r: Option<Vec<FsEntry>>|
            #[trigger] call_ensures(MetadataCache::get_readdir, (c, path, now), r) ==> {
                match r {
                    Some(v) => c.known(path@, now) == Some(Known::ReadDir(entries_view(v@))),
                    None => !(c.known(path@, now) is Some && c.known(path@, now)->0 is ReadDir),
                }
            },
        forall|c: &mut MetadataCache, path: &str, now: u64, r: Option<CachedEntry>, q: Seq<char>|
            #![trigger call_ensures(MetadataCache::get_stat, (c, path, now), r), final(c).known(
                q,
                now,
            )]
            call_ensures(MetadataCache::get_stat, (c, path, now), r) ==> final(c).known(q, now)
                == c.known(q, now),
        forall|c: &mut MetadataCache, path: &str, now: u64, r: Option<Vec<FsEntry>>, q: Seq<char>|
            #![trigger call_ensures(MetadataCache::get_readdir, (c, path, now), r), final(c).known(
                q,
                now,
            )]
            call_ensures(MetadataCache::get_readdir, (c, path, now), r) ==> final(c).known(q, now)
                == c.known(q, now),
{
}

/// After a change at a place what was known of it and of its directory is gone, and
/// what is known of any other place is what it was. Clearing forgets everything.
pub proof fn changes_are_forgotten_and_no_more()
    ensures
        forall|c: &mut MetadataCache, path: &str, q: Seq<char>, now: u64|
            #![trigger call_ensures(MetadataCache::invalidate, (c, path), ()), final(c).known(
                q,
                now,
            )]
            call_ensures(MetadataCache::invalidate, (c, path), ()) ==> {
                &&& canonical(q) == canonical(path@) || parent(path@) == Some(canonical(q))
                    ==> final(c).known(q, now) is None
                &&& canonical(q) != canonical(path@) && parent(path@) != Some(canonical(q))
                    ==> final(c).known(q, now) == c.known(q, now)
            },
        forall|c: &mut MetadataCache, q: Seq<char>, now: u64|
            #![trigger call_ensures(MetadataCache::clear, (c,), ()), final(c).known(q, now)]
            call_ensures(MetadataCache::clear, (c,), ()) ==> final(c).known(q, now) is None,
{
}

/// A copy of a listing has the same lines in the same order.
pub proof fn copied_listing_is_the_same(v: Vec<FsEntry>, r: Vec<FsEntry>, i: int)
    requires
        call_ensures(copy_entries, (&v,), r),
        0 <= i < v@.len(),
    ensures
        r@.len() == v@.len(),
        r@[i].name@ == v@[i].name@,
        r@[i].meta == v@[i].meta,
{
    assert(entries_view(r@).len() == r@.len());
    assert(entries_view(v@).len() == v@.len());
    assert(entries_view(r@)[i] == (r@[i].name@, r@[i].meta));
    assert(entries_view(v@)[i] == (v@[i].name@, v@[i].meta));
}

/// What is there is remembered for five seconds, and what is not for one; at first
/// nothing is.
pub proof fn things_are_remembered_for_seconds(c: MetadataCache, path: Seq<char>, now: u64)
    requires
        call_ensures(MetadataCache::with_default_ttl, (), c),
    ensures
        c.stat_ttl == 5000 && c.readdir_ttl == 5000 && c.negative_ttl == 1000,
        c.known(path, now) is None,
{
}

/// What is put in of one place changes nothing that is known of another.
pub proof fn places_do_not_disturb_each_other()
    ensures
        forall|c: &mut MetadataCache, path: &str, meta: FsMeta, now: u64, q: Seq<char>, at: u64|
            #![trigger call_ensures(MetadataCache::put_stat, (c, path, meta, now), ()), final(
                c).known(q, at)]
            call_ensures(MetadataCache::put_stat, (c, path, meta, now), ()) && canonical(q)
                != canonical(path@) ==> final(c).known(q, at) == c.known(q, at),
        forall|c: &mut MetadataCache, path: &str, now: u64, q: Seq<char>, at: u64|
            #![trigger call_ensures(MetadataCache::put_not_found, (c, path, now), ()), final(
                c).known(q, at)]
            call_ensures(MetadataCache::put_not_found, (c, path, now), ()) && canonical(q)
                != canonical(path@) ==> final(c).known(q, at) == c.known(q, at),
        forall|
            c: &mut MetadataCache,
            path: &str,
            e: Vec<FsEntry>,
            now: u64,
            q: Seq<char>,
            at: u64,
        |
            #![trigger call_ensures(MetadataCache::put_readdir, (c, path, e, now), ()), final(
                c).known(q, at)]
            call_ensures(MetadataCache::put_readdir, (c, path, e, now), ()) && canonical(q)
                != canonical(path@) ==> final(c).known(q, at) == c.known(q, at),
{
}

} // verus!
