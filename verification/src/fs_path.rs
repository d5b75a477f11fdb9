//! Paths of a remote file system: their parts, and one spelling for each place.

use vstd::prelude::*;
use vstd::string::*;

use crate::text::{concat, join, joined, pieces_at, split_at, texts};

verus! {

/// What stands between the slashes of `s`, empty pieces and all.
pub open spec fn pieces(s: Seq<char>) -> Seq<Seq<char>> {
    pieces_at(s, '/')
}

/// Whether a path begins at the root.
pub open spec fn is_absolute(s: Seq<char>) -> bool {
    s.len() > 0 && s[0] == '/'
}

/// Whether the piece in place `i` says anything: it is not empty, and not a dot,
/// which counts only at the very beginning.
pub open spec fn counts(piece: Seq<char>, i: int, absolute: bool) -> bool {
    piece.len() > 0 && (piece != "."@ || (i == 0 && !absolute))
}

/// Those of the first `n` pieces that say anything.
pub open spec fn counted(all: Seq<Seq<char>>, absolute: bool, n: int) -> Seq<Seq<char>>
    decreases n,
{
    if n <= 0 || n > all.len() {
        seq![]
    } else if counts(all[n - 1], n - 1, absolute) {
        counted(all, absolute, n - 1).push(all[n - 1])
    } else {
        counted(all, absolute, n - 1)
    }
}

/// The parts of a path.
pub open spec fn parts(s: Seq<char>) -> Seq<Seq<char>> {
    counted(pieces(s), is_absolute(s), pieces(s).len() as int)
}

/// The spelling of a place: a slash for the root, then the parts with slashes
/// between them.
pub open spec fn spelled(absolute: bool, parts: Seq<Seq<char>>) -> Seq<char> {
    if absolute {
        "/"@ + joined(parts, "/"@)
    } else {
        joined(parts, "/"@)
    }
}

/// The one spelling of the place that a path names.
pub open spec fn canonical(s: Seq<char>) -> Seq<char> {
    spelled(is_absolute(s), parts(s))
}

/// The directory in which the place lies. The root lies in none.
pub open spec fn parent(s: Seq<char>) -> Option<Seq<char>> {
    if parts(s).len() == 0 {
        None
    } else {
        Some(spelled(is_absolute(s), parts(s).drop_last()))
    }
}

/// The parts of a path, and whether it begins at the root.
pub fn split_path(path: &str) -> (r: (bool, Vec<String>))
    ensures
        r.0 == is_absolute(path@),
        texts(r.1@) == parts(path@),
{
    let absolute = path.unicode_len() > 0 && path.get_char(0) == '/';
    let all = split_at(path, '/');
    let mut kept: Vec<String> = Vec::new();
    let mut i: usize = 0;
    let ghost p = pieces(path@);
    assert(texts(kept@) =~= counted(p, absolute, 0));
    while i < all.len()
        invariant
            i <= all.len(),
            p == texts(all@),
            p == pieces(path@),
            absolute == is_absolute(path@),
            texts(kept@) == counted(p, absolute, i as int),
        decreases all.len() - i,
    {
        let piece = all[i].as_str();
        assert(p[i as int] == piece@);
        let ghost before = texts(kept@);
        if piece.unicode_len() > 0 && (!(*piece == *".") || (i == 0 && !absolute)) {
            kept.push(piece.to_owned());
            assert(texts(kept@) =~= before.push(piece@));
        }
        i += 1;
    }
    (absolute, kept)
}

fn spell(absolute: bool, parts: &Vec<String>) -> (s: String)
    ensures
        s@ == spelled(absolute, texts(parts@)),
{
    let tail = join(parts, "/");
    if absolute {
        concat("/", tail.as_str())
    } else {
        tail
    }
}

/// The one spelling of the place that a path names.
pub fn canonical_path(path: &str) -> (s: String)
    ensures
        s@ == canonical(path@),
{
    let (absolute, kept) = split_path(path);
    spell(absolute, &kept)
}

/// The directory in which the place lies.
pub fn parent_path(path: &str) -> (r: Option<String>)
    ensures
        match (r, parent(path@)) {
            (Some(s), Some(p)) => s@ == p,
            (None, None) => true,
            _ => false,
        },
{
    let (absolute, mut kept) = split_path(path);
    let ghost all = texts(kept@);
    match kept.pop() {
        Some(_) => {
            assert(texts(kept@) =~= all.drop_last());
            Some(spell(absolute, &kept))
        },
        None => None,
    }
}

// ---- one spelling for each place ----------------------------------------------------------

/// Whether these are parts: none is empty, none has a slash, and a dot stands at
/// most at the beginning of a path that does not begin at the root.
pub open spec fn are_parts(p: Seq<Seq<char>>, absolute: bool) -> bool {
    forall|i: int|
        0 <= i < p.len() ==> counts(#[trigger] p[i], i, absolute) && !p[i].contains('/')
}

proof fn pieces_have_no_slash(s: Seq<char>)
    ensures
        pieces(s).len() > 0,
        forall|i: int| 0 <= i < pieces(s).len() ==> !(#[trigger] pieces(s)[i]).contains('/'),
    decreases s.len(),
{
    if s.len() > 0 {
        pieces_have_no_slash(s.drop_last());
        let before = pieces(s.drop_last());
        if s.last() != '/' {
            assert forall|i: int| 0 <= i < pieces(s).len() implies !(
            #[trigger] pieces(s)[i]).contains('/') by {
                if i < before.len() - 1 {
                    assert(pieces(s)[i] == before[i]);
                } else {
                    let piece = pieces(s)[i];
                    assert(!before.last().contains('/'));
                    assert forall|k: int| 0 <= k < piece.len() implies piece[k] != '/' by {
                        if k < before.last().len() {
                            assert(piece[k] == before.last()[k]);
                            assert(before.last().contains(before.last()[k]));
                        }
                    }
                }
            }
        } else {
            assert forall|i: int| 0 <= i < pieces(s).len() implies !(
            #[trigger] pieces(s)[i]).contains('/') by {
                if i < before.len() {
                    assert(pieces(s)[i] == before[i]);
                }
            }
        }
    }
}

proof fn counted_are_parts(all: Seq<Seq<char>>, absolute: bool, n: int)
    requires
        0 <= n <= all.len(),
        forall|i: int| 0 <= i < all.len() ==> !(#[trigger] all[i]).contains('/'),
    ensures
        are_parts(counted(all, absolute, n), absolute),
        counted(all, absolute, n).len() <= n,
    decreases n,
{
    if n > 0 {
        counted_are_parts(all, absolute, n - 1);
        let before = counted(all, absolute, n - 1);
        let now = counted(all, absolute, n);
        assert forall|i: int| 0 <= i < now.len() implies counts(#[trigger] now[i], i, absolute)
            && !now[i].contains('/') by {
            if i < before.len() {
                assert(now[i] == before[i]);
            }
        }
    }
}

/// The pieces of a text with a slash and one more part behind it.
proof fn pieces_of_extended(s: Seq<char>, part: Seq<char>, n: int)
    requires
        0 <= n <= part.len(),
        !part.contains('/'),
    ensures
        pieces(s + "/"@ + part.take(n)) == pieces(s).push(part.take(n)),
    decreases n,
{
    reveal_strlit("/");
    let t = s + "/"@ + part.take(n);
    if n == 0 {
        assert(t.drop_last() =~= s);
        assert(part.take(0) =~= Seq::<char>::empty());
    } else {
        assert(part.contains(part[n - 1]));
        assert(t.last() == part[n - 1]);
        assert(t.drop_last() =~= s + "/"@ + part.take(n - 1));
        pieces_of_extended(s, part, n - 1);
        let before = pieces(t.drop_last());
        assert(before =~= pieces(s).push(part.take(n - 1)));
        assert(before.drop_last() =~= pieces(s));
        assert(part.take(n - 1).push(part[n - 1]) =~= part.take(n));
    }
}

/// The pieces of a text without a slash.
proof fn pieces_of_part(part: Seq<char>)
    requires
        !part.contains('/'),
    ensures
        pieces(part) == seq![part],
    decreases part.len(),
{
    if part.len() > 0 {
        assert(part.contains(part.last()));
        assert forall|k: int| 0 <= k < part.len() - 1 implies part.drop_last()[k] != '/' by {
            assert(part.contains(part[k]));
        }
        pieces_of_part(part.drop_last());
        assert(pieces(part) =~= seq![part.drop_last().push(part.last())]);
        assert(part.drop_last().push(part.last()) =~= part);
    } else {
        assert(part =~= Seq::<char>::empty());
    }
}

/// The pieces of joined parts are the parts.
proof fn pieces_of_joined(p: Seq<Seq<char>>)
    requires
        p.len() > 0,
        forall|i: int| 0 <= i < p.len() ==> !(#[trigger] p[i]).contains('/'),
    ensures
        pieces(joined(p, "/"@)) == p,
    decreases p.len(),
{
    if p.len() == 1 {
        pieces_of_part(p[0]);
        assert(seq![p[0]] =~= p);
    } else {
        assert forall|i: int| 0 <= i < p.len() - 1 implies !(
        #[trigger] p.drop_last()[i]).contains('/') by {
            assert(p.drop_last()[i] == p[i]);
        }
        pieces_of_joined(p.drop_last());
        let n = p.last().len() as int;
        pieces_of_extended(joined(p.drop_last(), "/"@), p.last(), n);
        assert(p.last().take(n) =~= p.last());
        assert(p.drop_last().push(p.last()) =~= p);
    }
}

/// Parts that are counted again all count, behind an empty piece or not.
proof fn counting_again(all: Seq<Seq<char>>, p: Seq<Seq<char>>, absolute: bool, n: int)
    requires
        are_parts(p, absolute),
        all == if absolute {
            seq![seq![]] + p
        } else {
            p
        },
        0 <= n <= p.len(),
    ensures
        counted(
            all,
            absolute,
            if absolute {
                n + 1
            } else {
                n
            },
        ) == p.take(n),
    decreases n,
{
    if n == 0 {
        assert(p.take(0) =~= Seq::<Seq<char>>::empty());
        if absolute {
            assert(all[0] == Seq::<char>::empty());
            assert(counted(all, absolute, 0) =~= Seq::<Seq<char>>::empty());
            assert(counted(all, absolute, 1) == counted(all, absolute, 0));
        }
    } else {
        counting_again(all, p, absolute, n - 1);
        assert(counts(p[n - 1], n - 1, absolute));
        assert(p.take(n - 1).push(p[n - 1]) =~= p.take(n));
        if absolute {
            assert(all[n] == p[n - 1]);
        }
    }
}

/// Where the text of joined parts begins.
proof fn joined_begins(p: Seq<Seq<char>>)
    requires
        p.len() > 0,
        p[0].len() > 0,
    ensures
        joined(p, "/"@).len() > 0,
        joined(p, "/"@)[0] == p[0][0],
    decreases p.len(),
{
    if p.len() > 1 {
        assert(p.drop_last()[0] == p[0]);
        joined_begins(p.drop_last());
    }
}

/// What is spelled from parts has those parts.
proof fn spelling_reads_back(absolute: bool, p: Seq<Seq<char>>)
    requires
        are_parts(p, absolute),
    ensures
        is_absolute(spelled(absolute, p)) == absolute,
        parts(spelled(absolute, p)) == p,
{
    reveal_strlit("/");
    let s = spelled(absolute, p);
    if p.len() == 0 {
        assert(joined(p, "/"@) =~= Seq::<char>::empty());
        if absolute {
            assert(s =~= seq!['/']);
            assert(s.drop_last() =~= Seq::<char>::empty());
            assert(pieces(s.drop_last()) == seq![Seq::<char>::empty()]);
            assert(pieces(s) =~= seq![Seq::<char>::empty(), Seq::<char>::empty()]);
            assert(counted(pieces(s), true, 0) =~= p);
            assert(counted(pieces(s), true, 1) =~= p);
            assert(counted(pieces(s), true, 2) =~= p);
        } else {
            assert(s =~= Seq::<char>::empty());
            assert(pieces(s) =~= seq![Seq::<char>::empty()]);
            assert(counted(pieces(s), false, 0) =~= p);
            assert(counted(pieces(s), false, 1) =~= p);
        }
    } else {
        assert(counts(p[0], 0, absolute) && !p[0].contains('/'));
        assert forall|i: int| 0 <= i < p.len() implies !(#[trigger] p[i]).contains('/') by {
            assert(counts(p[i], i, absolute) && !p[i].contains('/'));
        }
        pieces_of_joined(p);
        joined_begins(p);
        assert(p[0].contains(p[0][0]));
        let n = p.len() as int;
        if absolute {
            let t = seq![Seq::<char>::empty()] + p;
            assert forall|i: int| 0 <= i < t.len() implies !(#[trigger] t[i]).contains('/') by {
                if i > 0 {
                    assert(t[i] == p[i - 1]);
                }
            }
            joined_behind_empty(p);
            pieces_of_joined(t);
            assert(joined(t, "/"@) == s);
            counting_again(t, p, true, n);
        } else {
            counting_again(p, p, false, n);
        }
        assert(p.take(n) =~= p);
    }
}

/// Joining parts behind an empty one puts the separator in front.
proof fn joined_behind_empty(p: Seq<Seq<char>>)
    requires
        p.len() > 0,
    ensures
        joined(seq![Seq::<char>::empty()] + p, "/"@) == "/"@ + joined(p, "/"@),
    decreases p.len(),
{
    let t = seq![Seq::<char>::empty()] + p;
    if p.len() == 1 {
        assert(t.drop_last() =~= seq![Seq::<char>::empty()]);
        assert(joined(t.drop_last(), "/"@) == Seq::<char>::empty());
        assert(joined(t, "/"@) =~= "/"@ + p[0]);
    } else {
        assert(t.drop_last() =~= seq![Seq::<char>::empty()] + p.drop_last());
        joined_behind_empty(p.drop_last());
        assert(joined(t, "/"@) =~= "/"@ + joined(p, "/"@));
    }
}

/// The empty path is the spelling of its place.
pub proof fn empty_is_canonical()
    ensures
        canonical(Seq::<char>::empty()) == Seq::<char>::empty(),
{
    let none = Seq::<Seq<char>>::empty();
    spelling_reads_back(false, none);
    assert(joined(none, "/"@) =~= Seq::<char>::empty());
}

/// The spelling of a place names that place, and two paths have the same spelling
/// exactly when they name the same place.
pub proof fn one_spelling_for_each_place(a: Seq<char>, b: Seq<char>)
    ensures
        is_absolute(canonical(a)) == is_absolute(a),
        parts(canonical(a)) == parts(a),
        canonical(a) == canonical(b) <==> (is_absolute(a) == is_absolute(b) && parts(a) == parts(
            b,
        )),
{
    pieces_have_no_slash(a);
    pieces_have_no_slash(b);
    counted_are_parts(pieces(a), is_absolute(a), pieces(a).len() as int);
    counted_are_parts(pieces(b), is_absolute(b), pieces(b).len() as int);
    spelling_reads_back(is_absolute(a), parts(a));
    spelling_reads_back(is_absolute(b), parts(b));
}

// ---- what a path names --------------------------------------------------------------------

/// A name without a slash, other than a dot, is its own spelling and lies in the place
/// that the empty path names.
pub proof fn plain_name_is_one_part(name: Seq<char>)
    requires
        name.len() > 0,
        !name.contains('/'),
    ensures
        parts(name) == seq![name],
        canonical(name) == name,
        parent(name) == Some(Seq::<char>::empty()),
{
    pieces_of_part(name);
    assert(name.contains(name[0]));
    let all = pieces(name);
    assert(all == seq![name]);
    assert(counted(all, false, 0) =~= seq![]);
    assert(counted(all, false, 1) =~= seq![name]);
    assert(joined(seq![name], "/"@) =~= name);
    assert(seq![name].drop_last() =~= Seq::<Seq<char>>::empty());
    assert(joined(Seq::<Seq<char>>::empty(), "/"@) =~= Seq::<char>::empty());
}

proof fn counting_more(all: Seq<Seq<char>>, more: Seq<char>, absolute: bool, n: int)
    requires
        0 <= n <= all.len(),
    ensures
        counted(all.push(more), absolute, n) == counted(all, absolute, n),
    decreases n,
{
    if n > 0 {
        counting_more(all, more, absolute, n - 1);
        assert(all.push(more)[n - 1] == all[n - 1]);
    }
}

/// A name behind a path and a slash names what has that name in that place, which is
/// the directory in which it lies. A dot, or nothing, behind a slash says nothing.
pub proof fn names_go_below(dir: Seq<char>, name: Seq<char>)
    requires
        dir.len() > 0,
        !name.contains('/'),
    ensures
        ({
            let below = dir + "/"@ + name;
            &&& is_absolute(below) == is_absolute(dir)
            &&& name.len() > 0 && name != "."@ ==> parts(below) == parts(dir).push(name)
                && parent(below) == Some(canonical(dir))
            &&& name.len() == 0 || name == "."@ ==> parts(below) == parts(dir) && canonical(below)
                == canonical(dir)
        }),
{
    reveal_strlit("/");
    let below = dir + "/"@ + name;
    assert(below[0] == dir[0]);
    pieces_of_extended(dir, name, name.len() as int);
    assert(name.take(name.len() as int) =~= name);
    let absolute = is_absolute(dir);
    let before = pieces(dir);
    assert(pieces(below) == before.push(name));
    counting_more(before, name, absolute, before.len() as int);
    assert(before.len() > 0) by {
        reveal_with_fuel(pieces_at, 1);
    }
    if name.len() > 0 && name != "."@ {
        assert(parts(below) == parts(dir).push(name));
        assert(parts(below).drop_last() =~= parts(dir));
    }
}

/// The root begins with a slash, has no part and lies nowhere. Nothing lies above what
/// has no part, and all else lies somewhere.
pub proof fn root_has_no_part(path: Seq<char>)
    ensures
        is_absolute("/"@),
        parts("/"@).len() == 0,
        canonical("/"@) == "/"@,
        parent("/"@) is None,
        parent(path) is None <==> parts(path).len() == 0,
        is_absolute(path) <==> path.len() > 0 && path[0] == '/',
{
    reveal_strlit("/");
    let none = Seq::<Seq<char>>::empty();
    assert(are_parts(none, true));
    spelling_reads_back(true, none);
    assert(joined(none, "/"@) =~= Seq::<char>::empty());
    assert(spelled(true, none) =~= "/"@);
}

/// The empty path has no part.
pub proof fn empty_has_no_part()
    ensures
        parts(Seq::<char>::empty()).len() == 0,
        parts(Seq::<char>::empty()) == Seq::<Seq<char>>::empty(),
{
    let none = Seq::<Seq<char>>::empty();
    assert(are_parts(none, false));
    spelling_reads_back(false, none);
    assert(joined(none, "/"@) =~= Seq::<char>::empty());
    assert(spelled(false, none) =~= Seq::<char>::empty());
}

/// A name behind the slash of the root names what has that name in the root.
pub proof fn names_go_below_the_root(name: Seq<char>)
    requires
        name.len() > 0,
        name != "."@,
        !name.contains('/'),
    ensures
        is_absolute("/"@ + name),
        parts("/"@ + name) == seq![name],
        parent("/"@ + name) == Some("/"@),
{
    reveal_strlit("/");
    let p = seq![name];
    assert(are_parts(p, true));
    spelling_reads_back(true, p);
    assert(joined(p, "/"@) =~= name);
    assert(p.drop_last() =~= Seq::<Seq<char>>::empty());
    assert(joined(Seq::<Seq<char>>::empty(), "/"@) =~= Seq::<char>::empty());
    assert("/"@ + Seq::<char>::empty() =~= "/"@);
}

/// A path and its spelling name the same place, and the directory of what lies in one is
/// that one.
pub proof fn spellings_name_the_same_place(
    path: &str,
    s: String,
    dir: Option<String>,
    split: (bool, Vec<String>),
)
    requires
        call_ensures(canonical_path, (path,), s),
        call_ensures(parent_path, (path,), dir),
        call_ensures(split_path, (path,), split),
    ensures
        canonical(s@) == canonical(path@),
        dir is None <==> parts(path@).len() == 0,
        dir matches Some(d) ==> Some(d@) == parent(path@),
        split.0 == is_absolute(path@) && texts(split.1@) == parts(path@),
{
    one_spelling_for_each_place(path@, path@);
    one_spelling_for_each_place(s@, path@);
}

} // verus!
