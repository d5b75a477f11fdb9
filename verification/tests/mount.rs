use ansync::fs_cache::{CachedEntry, FsEntry, FsMeta, MetadataCache};
use ansync::fs_client::{
    create_reply, done_reply, open_reply, read_reply, readdir_reply, reply_or_error, stat_reply,
    write_reply, FsClientError, FsOpMessage,
};
use ansync::fs_path::{canonical_path, parent_path, split_path};
use ansync::mount::{
    meta_to_attr, AttrPlan, Change, ChangeStep, InodeTable, MountState, StatPlan,
};

fn meta() -> FsMeta {
    FsMeta { size: 0, mode: 0o644, mtime: 0, is_dir: false }
}

fn entry(name: &str) -> FsEntry {
    FsEntry { name: name.to_string(), meta: meta() }
}

#[test]
fn put_get_roundtrip() {
    let mut c = MetadataCache::with_default_ttl();
    c.put_stat("/x", meta(), 0);
    assert!(matches!(c.get_stat("/x", 0), Some(CachedEntry::Stat(_))));
}

#[test]
fn negative_cache_distinct() {
    let mut c = MetadataCache::with_default_ttl();
    c.put_not_found("/missing", 0);
    assert!(matches!(c.get_stat("/missing", 0), Some(CachedEntry::NotFound)));
}

#[test]
fn invalidate_evicts_self_and_parent() {
    let mut c = MetadataCache::with_default_ttl();
    c.put_readdir("/dir", vec![], 0);
    c.put_stat("/dir/file", meta(), 0);
    c.invalidate("/dir/file");
    assert!(c.get_stat("/dir/file", 0).is_none());
    assert!(c.get_readdir("/dir", 0).is_none());
}

#[test]
fn expiry_drops_stale_entries() {
    let mut c = MetadataCache::new(1, 1, 1);
    c.put_stat("/x", meta(), 0);
    assert!(c.get_stat("/x", 5).is_none());
}

#[test]
fn entries_live_as_long_as_their_kind() {
    let mut c = MetadataCache::default();
    c.put_stat("/a", meta(), 100);
    c.put_not_found("/b", 100);
    c.put_readdir("/c", vec![entry("x")], 100);
    assert!(c.get_stat("/a", 5099).is_some());
    assert!(c.get_stat("/a", 5100).is_none());
    assert!(c.get_stat("/b", 1099).is_some());
    assert!(c.get_stat("/b", 1100).is_none());
    assert_eq!(c.get_readdir("/c", 5099).unwrap()[0].name, "x");
    assert!(c.get_readdir("/c", 5100).is_none());
    c.put_stat("/a", meta(), 0);
    c.clear();
    assert!(c.get_stat("/a", 0).is_none());
}

#[test]
fn one_place_has_many_spellings() {
    let mut c = MetadataCache::with_default_ttl();
    c.put_stat("/dir//./file", meta(), 0);
    assert!(c.get_stat("/dir/file/", 0).is_some());
    assert_eq!(canonical_path("/dir//./file/"), "/dir/file");
    assert_eq!(canonical_path("./a"), "./a");
    assert_eq!(canonical_path("/"), "/");
    assert_eq!(parent_path("/dir/file").as_deref(), Some("/dir"));
    assert_eq!(parent_path("/dir").as_deref(), Some("/"));
    assert_eq!(parent_path("/").as_deref(), None);
    assert_eq!(split_path("/a/b"), (true, vec!["a".to_string(), "b".to_string()]));
}

#[test]
fn places_keep_their_numbers() {
    let mut t = InodeTable::new();
    assert_eq!(t.path_of(1).as_deref(), Some(""));
    assert_eq!(t.intern(""), 1);
    assert_eq!((t.next, t.path_of(2)), (2, None));
    let a = t.intern("/a");
    let b = t.intern("/b");
    assert_eq!((a, b), (2, 3));
    assert_eq!(t.intern("/a/"), a);
    assert_eq!(t.path_of(b).as_deref(), Some("/b"));
    assert_eq!(t.path_of(9), None);
}

#[test]
fn attributes_of_a_file() {
    let a = meta_to_attr(7, &FsMeta { size: 513, mode: 0o100644, mtime: 9, is_dir: false });
    assert_eq!((a.ino, a.size, a.blocks, a.mtime), (7, 513, 2, 9));
    assert_eq!((a.perm, a.nlink, a.blksize), (0o644, 1, 262_144));
    let a = meta_to_attr(7, &FsMeta { size: u64::MAX, mode: 0, mtime: 9, is_dir: true });
    assert_eq!(a.blocks, 1 << 55);
}

#[test]
fn answers_are_remembered() {
    let mut m = MountState::new();
    assert!(matches!(m.plan_stat("/a", 0), StatPlan::Ask));
    m.stat_arrived("/a", &Ok(meta()), 0);
    assert!(matches!(m.plan_stat("/a", 1), StatPlan::Known(_)));
    let gone = FsClientError::Remote { code: 2, message: "no".to_string() };
    m.stat_arrived("/b", &Err(gone), 0);
    match m.plan_stat("/b", 1) {
        StatPlan::Missing(e) => {
            assert_eq!(e.errno(), 2);
            assert_eq!(e.message(), "peer error code=2: negative-cache");
        }
        _ => panic!("known to be missing"),
    }
    let failed = FsClientError::Transport("x".to_string());
    m.stat_arrived("/c", &Err(failed), 0);
    assert!(matches!(m.plan_stat("/c", 1), StatPlan::Ask));
}

#[test]
fn changes_are_seen_at_once() {
    let mut m = MountState::new();
    m.stat_arrived("/d/a", &Ok(meta()), 0);
    m.listing_arrived("/d", vec![entry("a")], 0);
    m.changed("/d/a");
    assert!(matches!(m.plan_stat("/d/a", 1), StatPlan::Ask));
    assert!(m.known_listing("/d", 1).is_none());
    m.stat_arrived("/d/a", &Ok(meta()), 0);
    m.stat_arrived("/e/b", &Ok(meta()), 0);
    m.stat_arrived("/f/c", &Ok(meta()), 0);
    for dir in ["/d", "/e", "/f"] {
        m.listing_arrived(dir, vec![entry("a")], 0);
    }
    m.renamed("/d/a", "/e/b");
    assert!(matches!(m.plan_stat("/d/a", 1), StatPlan::Ask));
    assert!(matches!(m.plan_stat("/e/b", 1), StatPlan::Ask));
    assert!(m.known_listing("/d", 1).is_none());
    assert!(m.known_listing("/e", 1).is_none());
    assert!(m.known_listing("/f", 1).is_some());
    assert!(matches!(m.plan_stat("/f/c", 1), StatPlan::Known(_)));
}

#[test]
fn files_are_entered_and_listed() {
    let mut m = MountState::new();
    assert_eq!(m.path_of(1).unwrap(), "");
    assert_eq!(m.path_of(8), Err(2));
    assert_eq!(m.lookup_path(1, "a").unwrap(), "a");
    let a = m.entered("a", &meta());
    assert_eq!(a.ino, 2);
    let entries = vec![entry("a"), entry("b")];
    let names: Vec<(u64, String)> = (0..4)
        .map(|at| {
            let line = m.dir_line(1, "", &entries, at).unwrap();
            assert_eq!(line.next, at + 1);
            (line.ino, line.name)
        })
        .collect();
    let expected = [(1, "."), (1, ".."), (2, "a"), (3, "b")];
    assert!(names.iter().zip(expected).all(|(n, e)| n.0 == e.0 && n.1 == e.1));
    assert!(m.dir_line(1, "", &entries, 4).is_none());
    assert!(matches!(m.plan_attr(1, 77), Ok(AttrPlan::Known(a)) if a.mtime == 77 && a.is_dir && a.perm == 0o755));
    assert!(matches!(m.plan_attr(2, 77), Ok(AttrPlan::Stat(p)) if p == "a"));
    assert!(matches!(m.plan_attr(9, 77), Err(2)));
    assert_eq!(m.lookup_path(2, "b").unwrap(), "a/b");
    let c = m.created("new", 0o600, 5);
    assert_eq!((c.ino, c.size, c.perm, c.mtime), (4, 0, 0o600, 5));
    assert_eq!((m.path_of(2).unwrap(), m.path_of(3).unwrap()), ("a".to_string(), "b".to_string()));
}

#[test]
fn attribute_changes_in_order() {
    let c = Change { size: Some(3), mode: Some(0o600) };
    assert!(matches!(c.next(), ChangeStep::Truncate(3)));
    let c = c.after(ChangeStep::Truncate(3));
    assert!(matches!(c.next(), ChangeStep::Chmod(0o600)));
    let c = c.after(ChangeStep::Chmod(0o600));
    assert!(matches!(c.next(), ChangeStep::Stat));
}

#[test]
fn replies_must_fit_their_requests() {
    let d = || "Done".to_string();
    assert!(stat_reply(FsOpMessage::StatReply { meta: meta() }, d()).is_ok());
    assert!(readdir_reply(FsOpMessage::ReadDirReply { entries: vec![entry("a")] }, d()).is_ok());
    assert_eq!(open_reply(FsOpMessage::OpenReply { handle: 4 }, d()).unwrap(), 4);
    assert_eq!(create_reply(FsOpMessage::CreateReply { handle: 5 }, d()).unwrap(), 5);
    assert_eq!(read_reply(FsOpMessage::ReadReply { data: vec![1] }, d()).unwrap(), vec![1]);
    assert_eq!(write_reply(FsOpMessage::WriteReply { written: 6 }, d()).unwrap(), 6);
    assert!(done_reply(FsOpMessage::Done, d()).is_ok());
    let wrong = stat_reply(FsOpMessage::Done, d()).unwrap_err();
    assert_eq!(wrong.message(), "protocol: expected StatReply, got Done");
    assert_eq!(wrong.errno(), 5);
    let refused = FsOpMessage::Error { code: 13, message: "denied".to_string() };
    let e = open_reply(refused, d()).unwrap_err();
    assert_eq!((e.errno(), e.message().as_str()), (13, "peer error code=13: denied"));
    assert!(reply_or_error(FsOpMessage::Done).is_ok());
    assert_eq!(FsClientError::Postcard("x".to_string()).message(), "postcard: x");
}
