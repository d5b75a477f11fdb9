//! A remote file system as a local mount: numbers for its paths, attributes for
//! the kernel, and what each request reads and forgets.

use std::collections::HashMap;

use vstd::hash_map::*;
use vstd::prelude::*;
use vstd::string::*;

use crate::files::{join_path, joined_path};
use crate::fs_cache::{
    entries_view, without_place, CachedEntry, FsEntry, FsMeta, Known, MetadataCache, Slot,
};
use crate::fs_client::{FsClientError, ENOENT};
use crate::fs_path::{canonical, canonical_path, empty_is_canonical};

verus! {

broadcast use vstd::std_specs::hash::group_hash_axioms;

/// The number of the root.
pub const ROOT: u64 = 1;

/// For how long the kernel may keep what it is told, in seconds.
pub const ATTR_TTL_SECS: u64 = 5;

/// The block size that the kernel is told.
pub const BLOCK_SIZE: u32 = 262144;

// ---- numbers and paths ------------------------------------------------------------------

/// A number for each path that the kernel was told of. The root has the empty path
/// and its own number without being entered.
pub struct InodeTable {
    pub next: u64,
    pub by_path: StringHashMap<u64>,
    pub by_ino: HashMap<u64, String>,
}

impl InodeTable {
    /// The two directions agree: the path of a number has that number, the number
    /// of a place has a path to that place, and numbers not yet given out have
    /// none. The root is in neither.
    pub open spec fn wf(self) -> bool {
        &&& self.next > ROOT
        &&& !self.by_path@.contains_key(Seq::<char>::empty())
        &&& forall|ino: u64| #[trigger]
            self.by_ino@.contains_key(ino) ==> ROOT < ino < self.next
                && self.by_path@.contains_key(canonical(self.by_ino@[ino]@))
                && self.by_path@[canonical(self.by_ino@[ino]@)] == ino
        &&& forall|key: Seq<char>| #[trigger]
            self.by_path@.contains_key(key) ==> self.by_ino@.contains_key(self.by_path@[key])
                && canonical(self.by_ino@[self.by_path@[key]]@) == key
    }

    /// The path of a number.
    pub open spec fn path_text(self, ino: u64) -> Option<Seq<char>> {
        if ino == ROOT {
            Some(Seq::<char>::empty())
        } else if self.by_ino@.contains_key(ino) {
            Some(self.by_ino@[ino]@)
        } else {
            None
        }
    }

    /// The number of a place.
    pub open spec fn number_of(self, path: Seq<char>) -> Option<u64> {
        if canonical(path).len() == 0 {
            Some(ROOT)
        } else if self.by_path@.contains_key(canonical(path)) {
            Some(self.by_path@[canonical(path)])
        } else {
            None
        }
    }

    /// Every number that had a path still has it.
    pub open spec fn paths_kept(self, after: Self) -> bool {
        forall|n: u64|
            self.path_text(n) is Some ==> #[trigger] after.path_text(n) == self.path_text(n)
    }

    /// The table once a path has a number: a place that had none got the next one,
    /// and no other number is new.
    pub open spec fn with_path(self, after: Self, path: Seq<char>) -> bool {
        &&& after.number_of(path) is Some
        &&& self.paths_kept(after)
        &&& match self.number_of(path) {
            Some(n) => after.number_of(path) == Some(n) && after == self,
            None => after.number_of(path) == Some(self.next) && after.next == self.next + 1
                && after.path_text(self.next) == Some(path) && forall|n: u64|
                n != self.next ==> #[trigger] after.path_text(n) == self.path_text(n),
        }
    }

    pub fn new() -> (t: Self)
        ensures
            t.wf(),
            t.next == 2,
            forall|ino: u64| #[trigger] t.path_text(ino) == if ino == ROOT {
                Some(Seq::<char>::empty())
            } else {
                None
            },
            forall|path: Seq<char>|
                #[trigger] t.number_of(path) == if canonical(path).len() == 0 {
                    Some(ROOT)
                } else {
                    None
                },
    {
        InodeTable { next: 2, by_path: StringHashMap::new(), by_ino: HashMap::new() }
    }

    /// The number of a path; a place that has none gets the next one.
    pub fn intern(&mut self, path: &str) -> (ino: u64)
        requires
            old(self).wf(),
            old(self).next < u64::MAX,
        ensures
            final(self).wf(),
            final(self).number_of(path@) == Some(ino),
            old(self).with_path(*final(self), path@),
    {
        let key = canonical_path(path);
        if key.as_str().unicode_len() == 0 {
            return ROOT;
        }
        if let Some(n) = self.by_path.get(key.as_str()) {
            return *n;
        }
        let ino: u64 = self.next;
        self.next = ino + 1;
        self.by_path.insert(key, ino);
        self.by_ino.insert(ino, path.to_owned());
        proof {
            assert forall|k: Seq<char>| #[trigger]
                self.by_path@.contains_key(k) implies self.by_ino@.contains_key(self.by_path@[k])
                && canonical(self.by_ino@[self.by_path@[k]]@) == k by {
                if k != canonical(path@) {
                    assert(old(self).by_path@.contains_key(k));
                    assert(old(self).by_ino@.contains_key(old(self).by_path@[k]));
                }
            }
            assert forall|n: u64| #[trigger]
                self.by_ino@.contains_key(n) implies ROOT < n < self.next
                && self.by_path@.contains_key(canonical(self.by_ino@[n]@))
                && self.by_path@[canonical(self.by_ino@[n]@)] == n by {
                if n != ino {
                    assert(old(self).by_ino@.contains_key(n));
                }
            }
            assert(!old(self).by_ino@.contains_key(ino));
        }
        ino
    }

    pub fn path_of(&self, ino: u64) -> (r: Option<String>)
        ensures
            match (r, self.path_text(ino)) {
                (Some(s), Some(p)) => s@ == p,
                (None, None) => true,
                _ => false,
            },
    {
        if ino == ROOT {
            return Some(String::new());
        }
        match self.by_ino.get(&ino) {
            Some(p) => Some(p.as_str().to_owned()),
            None => None,
        }
    }
}

/// Two numbers stand for the same place only if they are the same.
pub proof fn numbers_tell_places_apart(t: InodeTable, a: u64, b: u64)
    requires
        t.wf(),
        t.path_text(a) is Some,
        t.path_text(b) is Some,
        canonical(t.path_text(a)->0) == canonical(t.path_text(b)->0),
    ensures
        a == b,
{
    empty_is_canonical();
    if a != ROOT {
        assert(t.by_ino@.contains_key(a));
    }
    if b != ROOT {
        assert(t.by_ino@.contains_key(b));
    }
}

/// The number of a path leads back to the place.
pub proof fn number_leads_back(t: InodeTable, path: Seq<char>)
    requires
        t.wf(),
        t.number_of(path) is Some,
    ensures
        t.path_text(t.number_of(path)->0) is Some,
        canonical(t.path_text(t.number_of(path)->0)->0) == canonical(path),
{
    empty_is_canonical();
    if canonical(path).len() == 0 {
        assert(canonical(path) =~= Seq::<char>::empty());
    } else {
        assert(t.by_path@.contains_key(canonical(path)));
    }
}

// ---- attributes ---------------------------------------------------------------------------

/// What the kernel is told of a file. Every time is the time of the last change,
/// in seconds.
#[derive(Debug, Clone, Copy, PartialEq, Eq, Structural)]
pub struct Attr {
    pub ino: u64,
    pub size: u64,
    pub blocks: u64,
    pub mtime: u64,
    pub is_dir: bool,
    pub perm: u16,
    pub nlink: u32,
    pub blksize: u32,
}

/// The attributes of a file: as many blocks of 512 bytes as its size takes, and
/// the twelve bits of its mode that are permissions.
pub open spec fn attr_of(ino: u64, meta: FsMeta) -> Attr {
    Attr {
        ino,
        size: meta.size,
        blocks: ((meta.size + 511) / 512) as u64,
        mtime: meta.mtime,
        is_dir: meta.is_dir,
        perm: (meta.mode % 4096) as u16,
        nlink: 1,
        blksize: BLOCK_SIZE,
    }
}

pub fn meta_to_attr(ino: u64, meta: &FsMeta) -> (a: Attr)
    ensures
        a == attr_of(ino, *meta),
{
    let partial: u64 = if meta.size % 512 == 0 {
        0
    } else {
        1
    };
    Attr {
        ino,
        size: meta.size,
        blocks: meta.size / 512 + partial,
        mtime: meta.mtime,
        is_dir: meta.is_dir,
        perm: (meta.mode % 4096) as u16,
        nlink: 1,
        blksize: BLOCK_SIZE,
    }
}

// ---- the mount ------------------------------------------------------------------------------

/// How to learn of a file.
#[derive(Debug)]
pub enum StatPlan {
    /// It is known.
    Known(FsMeta),
    /// It is known not to be there.
    Missing(FsClientError),
    /// The peer has to be asked.
    Ask,
}

/// How to learn of the attributes of a number.
#[derive(Debug)]
pub enum AttrPlan {
    Known(Attr),
    Stat(String),
}

/// One line of a directory listing for the kernel. The listing goes on at `next`.
#[derive(Debug)]
pub struct DirLine {
    pub ino: u64,
    pub next: u64,
    pub is_dir: bool,
    pub name: String,
}

/// What the mount remembers.
pub struct MountState {
    pub cache: MetadataCache,
    pub inodes: InodeTable,
}

impl MountState {
    pub open spec fn wf(self) -> bool {
        self.inodes.wf()
    }

    pub fn new() -> (m: Self)
        ensures
            m.wf(),
            m.inodes.next == 2,
            forall|ino: u64| #[trigger] m.inodes.path_text(ino) is Some <==> ino == ROOT,
            forall|path: Seq<char>|
                #[trigger] m.inodes.number_of(path) == if canonical(path).len() == 0 {
                    Some(ROOT)
                } else {
                    None
                },
            m.cache.slots@ == Map::<Seq<char>, Slot>::empty(),
            m.cache.stat_ttl == 5000,
            m.cache.readdir_ttl == 5000,
            m.cache.negative_ttl == 1000,
    {
        MountState { cache: MetadataCache::with_default_ttl(), inodes: InodeTable::new() }
    }

    /// The path of a number, or the error for the kernel.
    pub fn path_of(&self, ino: u64) -> (r: Result<String, i32>)
        ensures
            match (r, self.inodes.path_text(ino)) {
                (Ok(s), Some(p)) => s@ == p,
                (Err(e), None) => e == ENOENT,
                _ => false,
            },
    {
        match self.inodes.path_of(ino) {
            Some(p) => Ok(p),
            None => Err(ENOENT),
        }
    }

    /// The path of a name in the directory with a number, or the error for the
    /// kernel.
    pub fn lookup_path(&self, dir: u64, name: &str) -> (r: Result<String, i32>)
        ensures
            match (r, self.inodes.path_text(dir)) {
                (Ok(s), Some(p)) => s@ == joined_path(p, name@),
                (Err(e), None) => e == ENOENT,
                _ => false,
            },
    {
        match self.inodes.path_of(dir) {
            Some(p) => Ok(join_path(p.as_str(), name)),
            None => Err(ENOENT),
        }
    }

    /// Whether the peer has to be asked about a path.
    pub fn plan_stat(&mut self, path: &str, now: u64) -> (plan: StatPlan)
        ensures
            final(self).inodes == old(self).inodes,
            old(self).cache.only_stale_dropped(final(self).cache, now),
            match (old(self).cache.known(path@, now), plan) {
                (Some(Known::Stat(m)), StatPlan::Known(n)) => m == n,
                (Some(Known::NotFound), StatPlan::Missing(e)) => e matches FsClientError::Remote {
                    code,
                    message,
                } && code == ENOENT && message@ == "negative-cache"@,
                (Some(Known::ReadDir(_)), StatPlan::Ask) => true,
                (None, StatPlan::Ask) => true,
                _ => false,
            },
    {
        match self.cache.get_stat(path, now) {
            Some(CachedEntry::Stat(m)) => StatPlan::Known(m),
            Some(CachedEntry::NotFound) => StatPlan::Missing(
                FsClientError::Remote { code: ENOENT, message: "negative-cache".to_owned() },
            ),
            _ => StatPlan::Ask,
        }
    }

    /// The peer answered about a path. What it said is remembered, also that there
    /// is no such file; another error is not.
    pub fn stat_arrived(&mut self, path: &str, answer: &Result<FsMeta, FsClientError>, now: u64)
        ensures
            final(self).inodes == old(self).inodes,
            match answer {
                Ok(m) => old(self).cache.others_kept(final(self).cache, path@) && forall|later: u64|
                    #[trigger] final(self).cache.known(path@, later) == if later < now + old(
                        self).cache.stat_ttl {
                        Some(Known::Stat(*m))
                    } else {
                        None
                    },
                Err(FsClientError::Remote { code, .. }) => if code == ENOENT {
                    old(self).cache.others_kept(final(self).cache, path@) && forall|later: u64|
                        #[trigger] final(self).cache.known(path@, later) == if later < now + old(
                            self).cache.negative_ttl {
                            Some(Known::NotFound)
                        } else {
                            None
                        }
                } else {
                    final(self).cache == old(self).cache
                },
                Err(_) => final(self).cache == old(self).cache,
            },
    {
        match answer {
            Ok(m) => {
                self.cache.put_stat(path, *m, now);
            },
            Err(FsClientError::Remote { code, .. }) => {
                if *code == ENOENT {
                    self.cache.put_not_found(path, now);
                }
            },
            Err(_) => {},
        }
    }

    /// A file was found under a path: its number and attributes.
    pub fn entered(&mut self, path: &str, meta: &FsMeta) -> (a: Attr)
        requires
            old(self).wf(),
            old(self).inodes.next < u64::MAX,
        ensures
            final(self).wf(),
            final(self).cache == old(self).cache,
            final(self).inodes.number_of(path@) == Some(a.ino),
            old(self).inodes.with_path(final(self).inodes, path@),
            a == attr_of(a.ino, *meta),
    {
        let ino: u64 = self.inodes.intern(path);
        meta_to_attr(ino, meta)
    }

    /// How the attributes of a number are learnt. Those of the root are made up,
    /// so that the peer is not asked each time.
    pub fn plan_attr(&self, ino: u64, now_secs: u64) -> (r: Result<AttrPlan, i32>)
        ensures
            match (self.inodes.path_text(ino), r) {
                (None, Err(e)) => e == ENOENT,
                (Some(_), Ok(AttrPlan::Known(a))) => ino == ROOT && a == attr_of(
                    ROOT,
                    (FsMeta { size: 0, mode: 0o755, mtime: now_secs, is_dir: true }),
                ),
                (Some(p), Ok(AttrPlan::Stat(s))) => ino != ROOT && s@ == p,
                _ => false,
            },
    {
        let path = self.path_of(ino)?;
        if ino == ROOT {
            let meta = FsMeta { size: 0, mode: 0o755, mtime: now_secs, is_dir: true };
            return Ok(AttrPlan::Known(meta_to_attr(ROOT, &meta)));
        }
        Ok(AttrPlan::Stat(path))
    }

    /// The listing of a directory that is known.
    pub fn known_listing(&mut self, path: &str, now: u64) -> (r: Option<Vec<FsEntry>>)
        ensures
            final(self).inodes == old(self).inodes,
            old(self).cache.only_stale_dropped(final(self).cache, now),
            match old(self).cache.known(path@, now) {
                Some(Known::ReadDir(k)) => r is Some && entries_view(r->0@) == k,
                _ => r is None,
            },
    {
        self.cache.get_readdir(path, now)
    }

    /// The peer sent a listing.
    pub fn listing_arrived(&mut self, path: &str, entries: Vec<FsEntry>, now: u64)
        ensures
            final(self).inodes == old(self).inodes,
            old(self).cache.others_kept(final(self).cache, path@),
            forall|later: u64|
                #[trigger] final(self).cache.known(path@, later) == if later < now + old(
                    self).cache.readdir_ttl {
                    Some(Known::ReadDir(entries_view(entries@)))
                } else {
                    None
                },
    {
        self.cache.put_readdir(path, entries, now);
    }

    /// Line `at` of a listing: the directory itself, its parent, for which the root
    /// stands, and what it holds. There is none behind the last.
    pub fn dir_line(&mut self, ino: u64, path: &str, entries: &Vec<FsEntry>, at: u64) -> (r: Option<
        DirLine,
    >)
        requires
            old(self).wf(),
            old(self).inodes.next < u64::MAX,
            entries.len() < u64::MAX - 2,
        ensures
            final(self).wf(),
            final(self).cache == old(self).cache,
            match r {
                None => at >= entries@.len() + 2 && final(self).inodes == old(self).inodes,
                Some(line) => at < entries@.len() + 2 && line.next == at + 1 && if at == 0 {
                    line.ino == ino && line.is_dir && line.name@ == "."@ && final(self).inodes
                        == old(self).inodes
                } else if at == 1 {
                    line.ino == ROOT && line.is_dir && line.name@ == ".."@ && final(self).inodes
                        == old(self).inodes
                } else {
                    let e = entries@[at - 2];
                    line.name@ == e.name@ && line.is_dir == e.meta.is_dir
                        && final(self).inodes.number_of(joined_path(path@, e.name@)) == Some(
                        line.ino,
                    ) && old(self).inodes.with_path(
                        final(self).inodes,
                        joined_path(path@, e.name@),
                    )
                },
            },
    {
        if at == 0 {
            return Some(DirLine { ino, next: 1, is_dir: true, name: ".".to_owned() });
        }
        if at == 1 {
            return Some(DirLine { ino: ROOT, next: 2, is_dir: true, name: "..".to_owned() });
        }
        let k: u64 = at - 2;
        if k >= entries.len() as u64 {
            return None;
        }
        let e = &entries[k as usize];
        let child = join_path(path, e.name.as_str());
        let child_ino: u64 = self.inodes.intern(child.as_str());
        Some(
            DirLine {
                ino: child_ino,
                next: at + 1,
                is_dir: e.meta.is_dir,
                name: e.name.as_str().to_owned(),
            },
        )
    }

    /// Something changed at a path.
    pub fn changed(&mut self, path: &str)
        ensures
            final(self).inodes == old(self).inodes,
            old(self).cache.forgot(final(self).cache, path@),
    {
        self.cache.invalidate(path);
    }

    /// The file with a number was written to. One without a path changes nothing
    /// that is remembered.
    pub fn wrote(&mut self, ino: u64)
        ensures
            final(self).inodes == old(self).inodes,
            match old(self).inodes.path_text(ino) {
                Some(path) => old(self).cache.forgot(final(self).cache, path),
                None => final(self).cache == old(self).cache,
            },
    {
        if let Some(path) = self.inodes.path_of(ino) {
            self.cache.invalidate(path.as_str());
        }
    }

    /// A file was created: its number, and attributes that need no further asking.
    pub fn created(&mut self, path: &str, mode: u32, now_secs: u64) -> (a: Attr)
        requires
            old(self).wf(),
            old(self).inodes.next < u64::MAX,
        ensures
            final(self).wf(),
            final(self).inodes.number_of(path@) == Some(a.ino),
            old(self).inodes.with_path(final(self).inodes, path@),
            a == attr_of(a.ino, (FsMeta { size: 0, mode, mtime: now_secs, is_dir: false })),
            old(self).cache.forgot(final(self).cache, path@),
    {
        self.cache.invalidate(path);
        let meta = FsMeta { size: 0, mode, mtime: now_secs, is_dir: false };
        let ino: u64 = self.inodes.intern(path);
        meta_to_attr(ino, &meta)
    }

    /// A file was moved. Both places changed.
    pub fn renamed(&mut self, from: &str, to: &str)
        ensures
            final(self).inodes == old(self).inodes,
            final(self).cache.slots@ == without_place(
                without_place(old(self).cache.slots@, from@),
                to@,
            ),
            final(self).cache.same_times(old(self).cache),
    {
        self.cache.invalidate(from);
        self.cache.invalidate(to);
    }
}

/// What the kernel wants changed of a file.
#[derive(Debug, Clone, Copy, PartialEq, Eq, Structural)]
pub struct Change {
    pub size: Option<u64>,
    pub mode: Option<u32>,
}

#[derive(Debug, Clone, Copy, PartialEq, Eq, Structural)]
pub enum ChangeStep {
    Truncate(u64),
    Chmod(u32),
    /// Nothing is left to change: what the file is now has to be learnt.
    Stat,
}

impl Change {
    /// What comes first: the size, before the mode.
    pub fn next(&self) -> (s: ChangeStep)
        ensures
            s == match (self.size, self.mode) {
                (Some(n), _) => ChangeStep::Truncate(n),
                (None, Some(m)) => ChangeStep::Chmod(m),
                (None, None) => ChangeStep::Stat,
            },
    {
        match (self.size, self.mode) {
            (Some(n), _) => ChangeStep::Truncate(n),
            (None, Some(m)) => ChangeStep::Chmod(m),
            (None, None) => ChangeStep::Stat,
        }
    }

    /// What is left once a step was carried out.
    pub fn after(self, step: ChangeStep) -> (c: Self)
        ensures
            c == match step {
                ChangeStep::Truncate(_) => (Change { size: None, ..self }),
                ChangeStep::Chmod(_) => (Change { mode: None, ..self }),
                ChangeStep::Stat => self,
            },
    {
        match step {
            ChangeStep::Truncate(_) => Change { size: None, mode: self.mode },
            ChangeStep::Chmod(_) => Change { size: self.size, mode: None },
            ChangeStep::Stat => self,
        }
    }
}

// ---- what the kernel is told ----------------------------------------------------------------

/// A directory is told as a directory and a file as a file, with its own number, size,
/// time and permissions, and with just as many blocks of 512 bytes as its size takes.
pub proof fn files_are_told_as_they_are(ino: u64, meta: FsMeta, a: Attr)
    requires
        a == attr_of(ino, meta) || call_ensures(meta_to_attr, (ino, &meta), a),
    ensures
        a.is_dir == meta.is_dir,
        a.ino == ino,
        a.size == meta.size,
        a.mtime == meta.mtime,
        a.size <= 512 * a.blocks,
        512 * a.blocks < a.size + 512,
        a.perm < 4096,
        (meta.mode - a.perm) % 4096 == 0,
        a.nlink == 1,
        a.blksize == 262144,
{
}

/// What was found under a path is told as it is, and what was just created is told as
/// an empty file with the permissions asked for, changed just now. The root is a
/// directory that all may enter and its owner may write to.
pub proof fn entries_are_told_as_they_are()
    ensures
        forall|m: &mut MountState, path: &str, meta: FsMeta, a: Attr|
            #[trigger] call_ensures(MountState::entered, (m, path, &meta), a) ==> {
                &&& a.is_dir == meta.is_dir && a.size == meta.size && a.mtime == meta.mtime
                &&& a.perm == meta.mode % 4096
                &&& final(m).inodes.number_of(path@) == Some(a.ino)
                &&& m.inodes.number_of(path@) matches Some(n) ==> a.ino == n
            },
        forall|m: &mut MountState, path: &str, mode: u32, now: u64, a: Attr|
            #[trigger] call_ensures(MountState::created, (m, path, mode, now), a) ==> {
                &&& !a.is_dir && a.size == 0 && a.blocks == 0 && a.mtime == now
                &&& a.perm == mode % 4096
                &&& final(m).inodes.number_of(path@) == Some(a.ino)
                &&& forall|later: u64| #[trigger] final(m).cache.known(path@, later) is None
            },
        forall|m: MountState, ino: u64, now: u64, r: Result<AttrPlan, i32>|
            #[trigger] call_ensures(MountState::plan_attr, (&m, ino, now), r) ==> {
                &&& r is Ok <==> m.inodes.path_text(ino) is Some
                &&& r matches Err(e) ==> e == 2
                &&& r matches Ok(AttrPlan::Known(a)) ==> ino == 1 && a.is_dir && a.ino == 1
                    && a.mtime == now && a.perm == 0o755
                &&& r matches Ok(AttrPlan::Stat(s)) ==> ino != 1 && m.inodes.path_text(ino) == Some(
                    s@,
                )
            },
{
    assert forall|m: &mut MountState, path: &str, mode: u32, now: u64, a: Attr| #[trigger]
        call_ensures(MountState::created, (m, path, mode, now), a) implies {
        &&& !a.is_dir && a.size == 0 && a.blocks == 0 && a.mtime == now
        &&& a.perm == mode % 4096
        &&& final(m).inodes.number_of(path@) == Some(a.ino)
        &&& forall|later: u64| #[trigger] final(m).cache.known(path@, later) is None
    } by {
        assert forall|later: u64| #[trigger] final(m).cache.known(path@, later) is None by {
            crate::fs_cache::change_is_seen(m.cache, final(m).cache, path@, later);
        }
    }
}

/// A listing has the directory and its parent, then every entry under its own name as
/// what it is, and then ends. The number of an entry is that of its place below the
/// directory.
pub proof fn listings_are_told_line_by_line()
    ensures
        forall|
            m: &mut MountState,
            ino: u64,
            path: &str,
            entries: Vec<FsEntry>,
            at: u64,
            r: Option<DirLine>,
        |
            #[trigger] call_ensures(MountState::dir_line, (m, ino, path, &entries, at), r) ==> {
                &&& r is Some <==> at < entries@.len() + 2
                &&& r matches Some(line) ==> {
                    &&& line.next == at + 1
                    &&& at == 0 ==> line.name@ == "."@ && line.ino == ino && line.is_dir
                    &&& at == 1 ==> line.name@ == ".."@ && line.ino == 1 && line.is_dir
                    &&& at >= 2 ==> {
                        &&& line.name@ == entries@[at - 2].name@
                        &&& line.is_dir == entries@[at - 2].meta.is_dir
                        &&& final(m).inodes.number_of(
                            joined_path(path@, entries@[at - 2].name@),
                        ) == Some(line.ino)
                    }
                }
            },
{
}

/// A number that was given out leads back to the place it was given for, and asking
/// for the same place again gives the same number; another place has another one.
pub proof fn numbers_stand_for_places()
    ensures
        forall|t: &mut InodeTable, path: &str, ino: u64, u: &mut InodeTable, other: &str, again: u64|
            #![trigger call_ensures(InodeTable::intern, (t, path), ino), call_ensures(
                InodeTable::intern,
                (u, other),
                again,
            )]
            call_ensures(InodeTable::intern, (t, path), ino) && *u == *final(t) && call_ensures(
                InodeTable::intern,
                (u, other),
                again,
            ) ==> (again == ino <==> canonical(other@) == canonical(path@)),
        forall|t: &mut InodeTable, path: &str, ino: u64, back: Option<String>|
            #![trigger call_ensures(InodeTable::intern, (t, path), ino), call_ensures(
                InodeTable::path_of,
                (final(t), ino),
                back,
            )]
            call_ensures(InodeTable::intern, (t, path), ino) && call_ensures(
                InodeTable::path_of,
                (final(t), ino),
                back,
            ) ==> (back matches Some(s) && canonical(s@) == canonical(path@)),
{
    assert forall|
        t: &mut InodeTable,
        path: &str,
        ino: u64,
        u: &mut InodeTable,
        other: &str,
        again: u64,
    |
        #![trigger call_ensures(InodeTable::intern, (t, path), ino), call_ensures(
            InodeTable::intern,
            (u, other),
            again,
        )]
        call_ensures(InodeTable::intern, (t, path), ino) && *u == *final(t) && call_ensures(
            InodeTable::intern,
            (u, other),
            again,
        ) implies (again == ino <==> canonical(other@) == canonical(path@)) by {
        number_leads_back(*final(t), path@);
        number_leads_back(*final(u), other@);
        assert(final(u).path_text(ino) == final(t).path_text(ino));
    }
    assert forall|t: &mut InodeTable, path: &str, ino: u64, back: Option<String>|
        #![trigger call_ensures(InodeTable::intern, (t, path), ino), call_ensures(
            InodeTable::path_of,
            (final(t), ino),
            back,
        )]
        call_ensures(InodeTable::intern, (t, path), ino) && call_ensures(
            InodeTable::path_of,
            (final(t), ino),
            back,
        ) implies (back matches Some(s) && canonical(s@) == canonical(path@)) by {
        number_leads_back(*final(t), path@);
    }
}

/// What the peer said of a file is given back without asking it, under any spelling of
/// the path, for as long as it holds; then the peer is asked again. The same of a file
/// that is not there.
pub proof fn answers_are_given_back()
    ensures
        forall|
            m: &mut MountState,
            path: &str,
            answer: Result<FsMeta, FsClientError>,
            now: u64,
            n: &mut MountState,
            other: &str,
            later: u64,
            plan: StatPlan,
        |
            #![trigger call_ensures(MountState::stat_arrived, (m, path, &answer, now), ()),
                call_ensures(MountState::plan_stat, (n, other, later), plan)]
            call_ensures(MountState::stat_arrived, (m, path, &answer, now), ()) && *n == *final(m)
                && canonical(other@) == canonical(path@) && call_ensures(
                MountState::plan_stat,
                (n, other, later),
                plan,
            ) ==> {
                &&& answer matches Ok(meta) ==> plan == (if later < now + m.cache.stat_ttl {
                    StatPlan::Known(meta)
                } else {
                    StatPlan::Ask
                })
                &&& answer matches Err(FsClientError::Remote { code, .. }) ==> code == 2 ==> (
                plan is Missing <==> later < now + m.cache.negative_ttl) && !(plan is Known)
            },
{
    assert forall|
        m: &mut MountState,
        path: &str,
        answer: Result<FsMeta, FsClientError>,
        now: u64,
        n: &mut MountState,
        other: &str,
        later: u64,
        plan: StatPlan,
    |
        #![trigger call_ensures(MountState::stat_arrived, (m, path, &answer, now), ()),
            call_ensures(MountState::plan_stat, (n, other, later), plan)]
        call_ensures(MountState::stat_arrived, (m, path, &answer, now), ()) && *n == *final(m)
            && canonical(other@) == canonical(path@) && call_ensures(
            MountState::plan_stat,
            (n, other, later),
            plan,
        ) implies {
        &&& answer matches Ok(meta) ==> plan == (if later < now + m.cache.stat_ttl {
            StatPlan::Known(meta)
        } else {
            StatPlan::Ask
        })
        &&& answer matches Err(FsClientError::Remote { code, .. }) ==> code == 2 ==> (
        plan is Missing <==> later < now + m.cache.negative_ttl) && !(plan is Known)
    } by {
        assert(n.cache.known(other@, later) == final(m).cache.known(path@, later));
    }
}

/// After a write, nothing is known any more of the file, and after a move nothing of
/// either place; numbers stay as they are.
pub proof fn writes_are_seen()
    ensures
        forall|m: &mut MountState, ino: u64, later: u64, path: Seq<char>|
            #![trigger call_ensures(MountState::wrote, (m, ino), ()), final(m).cache.known(
                path,
                later,
            )]
            call_ensures(MountState::wrote, (m, ino), ()) && m.inodes.path_text(ino) == Some(path)
                ==> final(m).cache.known(path, later) is None && final(m).inodes == m.inodes,
        forall|m: &mut MountState, path: &str, later: u64|
            #![trigger call_ensures(MountState::changed, (m, path), ()), final(m).cache.known(
                path@,
                later,
            )]
            call_ensures(MountState::changed, (m, path), ()) ==> final(m).cache.known(
                path@,
                later,
            ) is None && final(m).inodes == m.inodes,
        forall|m: &mut MountState, from: &str, to: &str, later: u64, q: Seq<char>|
            #![trigger call_ensures(MountState::renamed, (m, from, to), ()), final(m).cache.known(
                q,
                later,
            )]
            call_ensures(MountState::renamed, (m, from, to), ()) ==> {
                &&& canonical(q) == canonical(from@) || canonical(q) == canonical(to@)
                    || crate::fs_path::parent(from@) == Some(canonical(q))
                    || crate::fs_path::parent(to@) == Some(canonical(q)) ==> final(m).cache.known(
                    q,
                    later,
                ) is None
                &&& !(canonical(q) == canonical(from@) || canonical(q) == canonical(to@)
                    || crate::fs_path::parent(from@) == Some(canonical(q))
                    || crate::fs_path::parent(to@) == Some(canonical(q))) ==> final(m).cache.known(
                    q,
                    later,
                ) == m.cache.known(q, later)
            },
{
}

/// Every change that is wanted is carried out, each once and with its own value, and
/// the file is looked at again only when none is left.
pub proof fn wanted_changes_are_made(c: Change, s: ChangeStep, rest: Change)
    requires
        call_ensures(Change::next, (&c,), s),
        call_ensures(Change::after, (c, s), rest),
    ensures
        s matches ChangeStep::Truncate(n) ==> c.size == Some(n) && rest.size is None && rest.mode
            == c.mode,
        s matches ChangeStep::Chmod(m) ==> c.mode == Some(m) && rest.mode is None && rest.size
            == c.size,
        s is Stat <==> c.size is None && c.mode is None,
        s is Stat ==> rest == c,
{
}

/// A name in a directory is looked for below the path of the directory; a number without
/// a path leads nowhere.
pub proof fn names_are_looked_for_in_their_directory(
    m: MountState,
    dir: u64,
    name: &str,
    r: Result<String, i32>,
    p: Result<String, i32>,
)
    requires
        call_ensures(MountState::lookup_path, (&m, dir, name), r),
        call_ensures(MountState::path_of, (&m, dir), p),
    ensures
        r is Ok <==> m.inodes.path_text(dir) is Some,
        r matches Ok(s) ==> s@ == joined_path(m.inodes.path_text(dir)->0, name@),
        r matches Err(e) ==> e == 2,
        p is Ok <==> m.inodes.path_text(dir) is Some,
        p matches Ok(s) ==> Some(s@) == m.inodes.path_text(dir),
        p matches Err(e) ==> e == 2,
{
}

/// A listing that came is given back, line for line, while it holds.
pub proof fn listings_are_given_back()
    ensures
        forall|
            m: &mut MountState,
            path: &str,
            entries: Vec<FsEntry>,
            now: u64,
            n: &mut MountState,
            other: &str,
            later: u64,
            r: Option<Vec<FsEntry>>,
        |
            #![trigger call_ensures(MountState::listing_arrived, (m, path, entries, now), ()),
                call_ensures(MountState::known_listing, (n, other, later), r)]
            call_ensures(MountState::listing_arrived, (m, path, entries, now), ()) && *n == *final(
                m) && canonical(other@) == canonical(path@) && call_ensures(
                MountState::known_listing,
                (n, other, later),
                r,
            ) ==> {
                &&& r is Some <==> later < now + m.cache.readdir_ttl
                &&& r is Some ==> entries_view(r->0@) == entries_view(entries@)
            },
{
    assert forall|
        m: &mut MountState,
        path: &str,
        entries: Vec<FsEntry>,
        now: u64,
        n: &mut MountState,
        other: &str,
        later: u64,
        r: Option<Vec<FsEntry>>,
    |
        #![trigger call_ensures(MountState::listing_arrived, (m, path, entries, now), ()),
            call_ensures(MountState::known_listing, (n, other, later), r)]
        call_ensures(MountState::listing_arrived, (m, path, entries, now), ()) && *n == *final(m)
            && canonical(other@) == canonical(path@) && call_ensures(
            MountState::known_listing,
            (n, other, later),
            r,
        ) implies {
        &&& r is Some <==> later < now + m.cache.readdir_ttl
        &&& r is Some ==> entries_view(r->0@) == entries_view(entries@)
    } by {
        assert(n.cache.known(other@, later) == final(m).cache.known(path@, later));
    }
}

/// Asking and hearing change no number, and a write to what has no path changes nothing.
pub proof fn asking_changes_no_number()
    ensures
        forall|m: &mut MountState, path: &str, now: u64, p: StatPlan|
            #[trigger] call_ensures(MountState::plan_stat, (m, path, now), p) ==> final(m).inodes
                == m.inodes,
        forall|m: &mut MountState, path: &str, a: Result<FsMeta, FsClientError>, now: u64|
            #[trigger] call_ensures(MountState::stat_arrived, (m, path, &a, now), ())
                ==> final(m).inodes == m.inodes,
        forall|m: &mut MountState, path: &str, now: u64, r: Option<Vec<FsEntry>>|
            #[trigger] call_ensures(MountState::known_listing, (m, path, now), r)
                ==> final(m).inodes == m.inodes,
        forall|m: &mut MountState, path: &str, entries: Vec<FsEntry>, now: u64|
            #[trigger] call_ensures(MountState::listing_arrived, (m, path, entries, now), ())
                ==> final(m).inodes == m.inodes,
        forall|m: &mut MountState, ino: u64|
            #[trigger] call_ensures(MountState::wrote, (m, ino), ()) && m.inodes.path_text(ino)
                is None ==> final(m).cache == m.cache && final(m).inodes == m.inodes,
        forall|m: MountState, ino: u64|
            #![trigger call_ensures(MountState::new, (), m), m.inodes.path_text(ino)]
            call_ensures(MountState::new, (), m) ==> (m.inodes.path_text(ino) is Some <==> ino
                == 1),
{
}

/// A place that has a number keeps it and nothing else changes; a place that has none
/// gets the next number, and every number given out before keeps its path.
pub proof fn numbers_are_given_out_in_turn()
    ensures
        forall|t: &mut InodeTable, path: &str, ino: u64, n: u64|
            #![trigger call_ensures(InodeTable::intern, (t, path), ino), final(t).path_text(n)]
            call_ensures(InodeTable::intern, (t, path), ino) ==> {
                &&& t.number_of(path@) is Some ==> ino == t.number_of(path@)->0 && *final(t) == *t
                &&& t.number_of(path@) is None ==> ino == t.next && final(t).next == t.next + 1
                &&& t.number_of(path@) is None && n != ino ==> final(t).path_text(n)
                    == t.path_text(n)
                &&& t.number_of(path@) is None && n == ino ==> final(t).path_text(n) == Some(path@)
            },
        forall|t: InodeTable, n: u64|
            #![trigger call_ensures(InodeTable::new, (), t), t.path_text(n)]
            call_ensures(InodeTable::new, (), t) ==> t.next == 2 && (t.path_text(n) is Some <==> n
                == 1),
{
}

} // verus!
