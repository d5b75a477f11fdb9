//! Virtual cameras: the label of a loopback node, how a node is come by and given
//! back, and how a frame is written to it.

use vstd::prelude::*;
use vstd::string::*;
use vstd::utf8::*;

use crate::text::{
    chars_of, concat, cut_to_bytes, decimal, decimal_string, fits_bytes, has_prefix, is_control,
    starts_with, string_of, texts, trim, trimmed, Cut,
};

verus! {

#[derive(Debug, Clone, Copy, PartialEq, Eq, Structural)]
pub enum CameraPixelFormat {
    Yuyv,
    Nv12,
    Mjpeg,
}

impl CameraPixelFormat {
    /// The four characters by which the kernel knows the format.
    pub open spec fn code(self) -> Seq<char> {
        match self {
            CameraPixelFormat::Yuyv => "YUYV"@,
            CameraPixelFormat::Nv12 => "NV12"@,
            CameraPixelFormat::Mjpeg => "MJPG"@,
        }
    }

    pub fn fourcc(self) -> (s: &'static str)
        ensures
            s@ == self.code(),
    {
        match self {
            CameraPixelFormat::Yuyv => "YUYV",
            CameraPixelFormat::Nv12 => "NV12",
            CameraPixelFormat::Mjpeg => "MJPG",
        }
    }
}

#[derive(Debug, Clone, Copy, PartialEq, Eq, Structural)]
pub struct CameraFormat {
    pub width: u32,
    pub height: u32,
    pub fps: u8,
    pub pixel_format: CameraPixelFormat,
}

#[derive(Debug)]
pub enum CameraError {
    BackendUnavailable,
    DeviceBusy,
    Io(String),
}

impl CameraError {
    pub open spec fn text(self) -> Seq<char> {
        match self {
            CameraError::BackendUnavailable => "backend unavailable"@,
            CameraError::DeviceBusy => "device busy"@,
            CameraError::Io(why) => "io: "@ + why@,
        }
    }

    /// The error in words.
    pub fn message(&self) -> (s: String)
        ensures
            s@ == self.text(),
    {
        match self {
            CameraError::BackendUnavailable => "backend unavailable".to_owned(),
            CameraError::DeviceBusy => "device busy".to_owned(),
            CameraError::Io(why) => concat("io: ", why.as_str()),
        }
    }
}

// ---- the label ------------------------------------------------------------------------

/// Most bytes of a label; one more ends it.
pub const CARD_LABEL_MAX: usize = 31;

/// A name without control characters.
pub open spec fn printable(name: Seq<char>) -> Seq<char> {
    name.filter(|c: char| !is_control(c))
}

/// The label before it is cut to size.
pub open spec fn whole_label(name: Seq<char>) -> Seq<char> {
    let shown = trimmed(printable(name), Cut::White);
    if shown.len() == 0 {
        "Ansync"@
    } else {
        shown + " (Ansync)"@
    }
}

fn keep_printable(chars: &Vec<char>) -> (r: Vec<char>)
    ensures
        r@ == printable(chars@),
{
    let mut r: Vec<char> = Vec::new();
    let mut i: usize = 0;
    let ghost keep = |c: char| !is_control(c);
    assert(chars@.take(0).filter(keep) =~= Seq::<char>::empty()) by {
        reveal(Seq::filter);
    }
    while i < chars.len()
        invariant
            i <= chars.len(),
            keep == (|c: char| !is_control(c)),
            r@ == chars@.take(i as int).filter(keep),
        decreases chars.len() - i,
    {
        let c = chars[i];
        proof {
            reveal(Seq::filter);
            assert(chars@.take(i + 1).drop_last() =~= chars@.take(i as int));
        }
        if !(c <= '\u{1f}' || ('\u{7f}' <= c && c <= '\u{9f}')) {
            r.push(c);
        }
        i += 1;
    }
    assert(chars@.take(i as int) =~= chars@);
    r
}

/// The label of the node for a peer, as programs show it: the name and a marker,
/// cut between characters so that it fits.
pub fn build_card_label(name: &str) -> (label: String)
    ensures
        fits_bytes(label@, whole_label(name@), 31),
{
    let chars = chars_of(name);
    let shown = trim(&keep_printable(&chars), Cut::White);
    let base: String = if shown.len() == 0 {
        "Ansync".to_owned()
    } else {
        let stem = string_of(&shown, 0, shown.len());
        assert(stem@ =~= shown@);
        concat(stem.as_str(), " (Ansync)")
    };
    let whole = chars_of(base.as_str());
    cut_to_bytes(&whole, CARD_LABEL_MAX)
}

// ---- the control device -----------------------------------------------------------------

/// The oldest module whose structure layout is the one used here: 0.15.
pub const MIN_SUPPORTED_VERSION: u32 = 0x0f00;

/// What the kernel is told of a node to add.
#[derive(Debug, Clone, Copy)]
pub struct LoopbackConfig {
    pub output_nr: i32,
    pub unused: i32,
    pub card_label: [u8; 32],
    pub min_width: u32,
    pub max_width: u32,
    pub min_height: u32,
    pub max_height: u32,
    pub max_buffers: i32,
    pub max_openers: i32,
    pub debug: i32,
    pub announce_all_caps: i32,
}

/// The bytes of a label in a field of 32: cut at 31, with zeros behind.
pub open spec fn label_field(bytes: Seq<u8>) -> Seq<u8> {
    Seq::new(
        32,
        |i: int|
            if i < bytes.len() && i < 31 {
                bytes[i]
            } else {
                0u8
            },
    )
}

/// The node to add: any number, this label, frames of exactly this size, and what
/// the kernel module does by default otherwise.
pub fn loopback_config(label: &str, width: u32, height: u32) -> (cfg: LoopbackConfig)
    ensures
        cfg.output_nr == -1,
        cfg.unused == -1,
        cfg.card_label@ == label_field(encode_utf8(label@)),
        cfg.min_width == width,
        cfg.max_width == width,
        cfg.min_height == height,
        cfg.max_height == height,
        cfg.max_buffers == 0,
        cfg.max_openers == 0,
        cfg.debug == 0,
        cfg.announce_all_caps == 0,
{
    let bytes: &[u8] = label.as_bytes();
    let mut field: [u8; 32] = [0u8;32];
    let mut i: usize = 0;
    while i < 31 && i < bytes.len()
        invariant
            i <= 31,
            i <= bytes@.len(),
            bytes@ == encode_utf8(label@),
            forall|k: int| 0 <= k < i ==> field@[k] == bytes@[k],
            forall|k: int| i <= k < 32 ==> field@[k] == 0,
        decreases 31 - i,
    {
        field[i] = bytes[i];
        i += 1;
    }
    assert(field@ =~= label_field(encode_utf8(label@)));
    LoopbackConfig {
        output_nr: -1,
        unused: -1,
        card_label: field,
        min_width: width,
        max_width: width,
        min_height: height,
        max_height: height,
        max_buffers: 0,
        max_openers: 0,
        debug: 0,
        announce_all_caps: 0,
    }
}

/// A label that was cut to size is taken over whole, and a zero follows it.
pub proof fn label_is_kept_whole(name: Seq<char>, label: Seq<char>)
    requires
        fits_bytes(label, whole_label(name), 31),
    ensures
        label_field(encode_utf8(label)).take(encode_utf8(label).len() as int) == encode_utf8(label),
        label_field(encode_utf8(label))[encode_utf8(label).len() as int] == 0,
{
    assert(label_field(encode_utf8(label)).take(encode_utf8(label).len() as int) =~= encode_utf8(
        label,
    ));
}

/// A version as `major.minor.patch`.
pub open spec fn version_text(v: u32) -> Seq<char> {
    decimal((v / 0x10000 % 0x100) as nat) + "."@ + decimal((v / 0x100 % 0x100) as nat) + "."@
        + decimal((v % 0x100) as nat)
}

/// The text of a version that the kernel gives as one number.
pub fn format_version(v: u32) -> (s: String)
    ensures
        s@ == version_text(v),
{
    let major: u32 = (v >> 16) & 0xff;
    let minor: u32 = (v >> 8) & 0xff;
    let patch: u32 = v & 0xff;
    assert(major == v / 0x10000 % 0x100 && minor == v / 0x100 % 0x100 && patch == v % 0x100)
        by (bit_vector)
        requires
            major == (v >> 16u32) & 0xff,
            minor == (v >> 8u32) & 0xff,
            patch == v & 0xff,
    ;
    let mut s: String = decimal_string(major as u64);
    s.append(".");
    s.append(decimal_string(minor as u64).as_str());
    s.append(".");
    s.append(decimal_string(patch as u64).as_str());
    s
}

/// Whether the running module may be asked to add a node.
pub fn may_add(version: Result<u32, CameraError>) -> (r: Result<(), CameraError>)
    ensures
        match version {
            Err(e) => r == Err::<(), CameraError>(e),
            Ok(v) => if v < MIN_SUPPORTED_VERSION {
                r == Err::<(), CameraError>(CameraError::BackendUnavailable)
            } else {
                r is Ok
            },
        },
{
    match version {
        Err(e) => Err(e),
        Ok(v) => if v < MIN_SUPPORTED_VERSION {
            Err(CameraError::BackendUnavailable)
        } else {
            Ok(())
        },
    }
}

/// What the kernel answered to a request to remove a node.
#[derive(Debug)]
pub enum Removal {
    /// There is no control device.
    NoControl,
    /// The control device could not be opened for another reason.
    OpenFailed(String),
    Removed,
    Refused { errno: i32, why: String },
}

/// "No such device".
pub const ENODEV: i32 = 19;

/// Removing a node that is not there is no error.
pub fn removed(outcome: Removal) -> (r: Result<(), CameraError>)
    ensures
        match outcome {
            Removal::NoControl => r is Ok,
            Removal::Removed => r is Ok,
            Removal::OpenFailed(why) => r == Err::<(), CameraError>(CameraError::Io(why)),
            Removal::Refused { errno, why } => if errno == ENODEV {
                r is Ok
            } else {
                r == Err::<(), CameraError>(CameraError::Io(why))
            },
        },
{
    match outcome {
        Removal::NoControl => Ok(()),
        Removal::Removed => Ok(()),
        Removal::OpenFailed(why) => Err(CameraError::Io(why)),
        Removal::Refused { errno, why } => if errno == ENODEV {
            Ok(())
        } else {
            Err(CameraError::Io(why))
        },
    }
}

// ---- coming by a node --------------------------------------------------------------------

/// A node to write to. One with a number was added for this use and has to be
/// removed after it.
#[derive(Debug)]
pub struct Node {
    pub path: String,
    pub owned_nr: Option<u32>,
}

pub open spec fn node_path(nr: u32) -> Seq<char> {
    "/dev/video"@ + decimal(nr as nat)
}

/// How a node is come by first.
#[derive(Debug)]
pub enum Source {
    /// The node that was asked for.
    Use(Node),
    /// Have one added.
    Add,
    /// Look among those that are there.
    Scan,
}

/// A node that was asked for is used; otherwise one is added if there is a control
/// device.
pub fn first_source(explicit: &Option<String>, control: bool) -> (s: Source)
    ensures
        match explicit {
            Some(p) => s matches Source::Use(node) && node.path@ == p@ && node.owned_nr is None,
            None => if control {
                s is Add
            } else {
                s is Scan
            },
        },
{
    match explicit {
        Some(p) => Source::Use(Node { path: p.as_str().to_owned(), owned_nr: None }),
        None => if control {
            Source::Add
        } else {
            Source::Scan
        },
    }
}

/// A node that was added is used; where none could be, those that are there are
/// looked at.
pub fn after_add(added: Result<u32, CameraError>) -> (s: Source)
    ensures
        match added {
            Ok(nr) => s matches Source::Use(node) && node.path@ == node_path(nr) && node.owned_nr
                == Some(nr),
            Err(_) => s is Scan,
        },
{
    match added {
        Ok(nr) => {
            let path = concat("/dev/video", decimal_string(nr as u64).as_str());
            Source::Use(Node { path, owned_nr: Some(nr) })
        },
        Err(_) => Source::Scan,
    }
}

/// A node that was found among those that are there is used; it is not removed
/// after that.
pub fn after_scan(found: Result<String, CameraError>) -> (r: Result<Node, CameraError>)
    ensures
        match found {
            Ok(path) => r == Ok::<Node, CameraError>(Node { path, owned_nr: None }),
            Err(e) => r == Err::<Node, CameraError>(e),
        },
{
    match found {
        Ok(path) => Ok(Node { path, owned_nr: None }),
        Err(e) => Err(e),
    }
}

/// The node that opening or setting up failed on is given back: its number, if it
/// was added for this use.
pub fn to_roll_back(node: &Node) -> (nr: Option<u32>)
    ensures
        nr == node.owned_nr,
{
    node.owned_nr
}

/// Whether a node takes frames, given the capability bits that it reported, if
/// any.
pub fn is_output(caps: Option<u32>) -> (r: bool)
    ensures
        r == (caps matches Some(c) && c / 2 % 2 == 1),
{
    match caps {
        Some(c) => {
            assert((c & 2 != 0) == (c / 2 % 2 == 1)) by (bit_vector);
            c & 2 != 0
        },
        None => false,
    }
}

/// Whether `a` stands before `b`, or is it.
pub open spec fn in_order(a: Seq<char>, b: Seq<char>) -> bool
    decreases a.len(),
{
    if a.len() == 0 {
        true
    } else if b.len() == 0 {
        false
    } else if a[0] == b[0] {
        in_order(a.skip(1), b.skip(1))
    } else {
        a[0] < b[0]
    }
}

fn text_in_order(a: &String, b: &String) -> (r: bool)
    ensures
        r == in_order(a@, b@),
{
    let x = chars_of(a.as_str());
    let y = chars_of(b.as_str());
    let mut i: usize = 0;
    assert(x@.skip(0) =~= x@ && y@.skip(0) =~= y@);
    while i < x.len() && i < y.len()
        invariant
            i <= x.len(),
            i <= y.len(),
            in_order(x@, y@) == in_order(x@.skip(i as int), y@.skip(i as int)),
            x@ == a@,
            y@ == b@,
        decreases x.len() - i,
    {
        if x[i] != y[i] {
            return x[i] < y[i];
        }
        assert(x@.skip(i as int).skip(1) =~= x@.skip(i + 1));
        assert(y@.skip(i as int).skip(1) =~= y@.skip(i + 1));
        i += 1;
    }
    i >= x.len()
}

proof fn order_is_total(a: Seq<char>, b: Seq<char>)
    ensures
        in_order(a, b) || in_order(b, a),
    decreases a.len(),
{
    if a.len() > 0 && b.len() > 0 && a[0] == b[0] {
        order_is_total(a.skip(1), b.skip(1));
    }
}

proof fn order_is_transitive(a: Seq<char>, b: Seq<char>, c: Seq<char>)
    requires
        in_order(a, b),
        in_order(b, c),
    ensures
        in_order(a, c),
    decreases a.len(),
{
    if a.len() > 0 && b.len() > 0 && c.len() > 0 && a[0] == b[0] && b[0] == c[0] {
        order_is_transitive(a.skip(1), b.skip(1), c.skip(1));
    }
}

pub open spec fn sorted_texts(v: Seq<Seq<char>>) -> bool {
    forall|i: int, j: int| 0 <= i <= j < v.len() ==> in_order(#[trigger] v[i], #[trigger] v[j])
}

proof fn order_is_reflexive(a: Seq<char>)
    ensures
        in_order(a, a),
    decreases a.len(),
{
    if a.len() > 0 {
        order_is_reflexive(a.skip(1));
    }
}

/// Puts a name where it belongs among sorted ones.
fn insert_sorted(v: &mut Vec<String>, name: String)
    requires
        sorted_texts(texts(old(v)@)),
        old(v).len() < usize::MAX,
    ensures
        sorted_texts(texts(final(v)@)),
        texts(final(v)@).to_multiset() == texts(old(v)@).to_multiset().insert(name@),
        final(v)@.len() == old(v)@.len() + 1,
{
    let mut at: usize = v.len();
    let ghost t = texts(old(v)@);
    while at > 0 && !text_in_order(&v[at - 1], &name)
        invariant
            at <= v.len(),
            v@ == old(v)@,
            t == texts(v@),
            sorted_texts(t),
            forall|k: int| at <= k < v.len() ==> in_order(name@, #[trigger] t[k]),
        decreases at,
    {
        proof {
            order_is_total(v@[at - 1]@, name@);
            assert(t[at - 1] == v@[at - 1]@);
        }
        at -= 1;
    }
    v.insert(at, name);
    proof {
        let after = texts(v@);
        assert(after =~= t.insert(at as int, name@));
        assert forall|i: int, j: int| 0 <= i <= j < after.len() implies in_order(
            #[trigger] after[i],
            #[trigger] after[j],
        ) by {
            let ti = if i < at { i } else { i - 1 };
            let tj = if j < at { j } else { j - 1 };
            if i == at && j == at {
                order_is_reflexive(name@);
            } else if i == at {
                assert(in_order(name@, t[tj]));
            } else if j == at {
                assert(t[at - 1] == old(v)@[at - 1]@);
                assert(in_order(t[ti], t[at - 1]));
                order_is_transitive(t[ti], t[at - 1], name@);
            } else {
                assert(in_order(t[ti], t[tj]));
            }
        }
        vstd::seq_lib::to_multiset_insert(t, at as int, name@);
    }
}

/// The names of video nodes.
pub open spec fn video_names(names: Seq<Seq<char>>) -> Seq<Seq<char>> {
    names.filter(|n: Seq<char>| has_prefix(n, "video"@))
}

/// The nodes to look at, in order: those of the names that begin with `video`.
pub fn video_candidates(names: &Vec<String>) -> (r: Vec<String>)
    ensures
        sorted_texts(texts(r@)),
        texts(r@).to_multiset() == video_names(texts(names@)).to_multiset(),
{
    let mut r: Vec<String> = Vec::new();
    let mut i: usize = 0;
    let ghost keep = |n: Seq<char>| has_prefix(n, "video"@);
    let ghost all = texts(names@);
    proof {
        reveal(Seq::filter);
        assert(all.take(0).filter(keep) =~= Seq::<Seq<char>>::empty());
        assert(texts(r@) =~= Seq::<Seq<char>>::empty());
    }
    while i < names.len()
        invariant
            i <= names.len(),
            all == texts(names@),
            keep == (|n: Seq<char>| has_prefix(n, "video"@)),
            r@.len() <= i,
            sorted_texts(texts(r@)),
            texts(r@).to_multiset() == all.take(i as int).filter(keep).to_multiset(),
        decreases names.len() - i,
    {
        proof {
            reveal(Seq::filter);
            assert(all.take(i + 1).drop_last() =~= all.take(i as int));
            assert(all[i as int] == names@[i as int]@);
            broadcast use vstd::seq_lib::group_to_multiset_ensures;

        }
        if starts_with(names[i].as_str(), "video") {
            insert_sorted(&mut r, names[i].clone());
        }
        i += 1;
    }
    assert(all.take(i as int) =~= all);
    r
}

/// A search for a node that takes frames.
#[derive(Debug)]
pub struct OutputSearch {
    pub candidates: Vec<String>,
    pub at: usize,
}

impl OutputSearch {
    pub fn new(names: &Vec<String>) -> (s: Self)
        ensures
            s.at == 0,
            sorted_texts(texts(s.candidates@)),
            texts(s.candidates@).to_multiset() == video_names(texts(names@)).to_multiset(),
    {
        OutputSearch { candidates: video_candidates(names), at: 0 }
    }

    /// The path of the node to look at now. There is no backend where none is left.
    pub fn candidate(&self) -> (r: Result<String, CameraError>)
        ensures
            match r {
                Ok(path) => self.at < self.candidates@.len() && path@ == "/dev/"@
                    + self.candidates@[self.at as int]@,
                Err(e) => self.at >= self.candidates@.len() && e
                    == CameraError::BackendUnavailable,
            },
    {
        if self.at < self.candidates.len() {
            Ok(concat("/dev/", self.candidates[self.at].as_str()))
        } else {
            Err(CameraError::BackendUnavailable)
        }
    }

    /// Whether the search ends with the node that was looked at. Otherwise the next
    /// one is looked at.
    pub fn judge(&mut self, caps: Option<u32>) -> (found: bool)
        requires
            old(self).at < old(self).candidates.len(),
        ensures
            found == (caps matches Some(c) && c / 2 % 2 == 1),
            final(self).candidates == old(self).candidates,
            final(self).at == if found {
                old(self).at as int
            } else {
                old(self).at + 1
            },
    {
        if is_output(caps) {
            true
        } else {
            self.at += 1;
            false
        }
    }
}

// ---- a sink ---------------------------------------------------------------------------------

/// A node that is in use, and its label.
#[derive(Debug)]
pub struct RegisteredDevice {
    pub node: Node,
    pub label: String,
}

/// A virtual camera.
#[derive(Debug)]
pub struct V4l2LoopbackSink {
    /// The node to use, if it was asked for.
    pub explicit: Option<String>,
    pub registered: Option<RegisteredDevice>,
}

impl V4l2LoopbackSink {
    pub fn new() -> (s: Self)
        ensures
            s.explicit is None,
            s.registered is None,
    {
        V4l2LoopbackSink { explicit: None, registered: None }
    }

    pub fn with_path(path: String) -> (s: Self)
        ensures
            s.explicit == Some(path),
            s.registered is None,
    {
        V4l2LoopbackSink { explicit: Some(path), registered: None }
    }

    /// The path of the node in use.
    pub fn device_path(&self) -> (p: Option<String>)
        ensures
            match (self.registered, p) {
                (Some(r), Some(s)) => s@ == r.node.path@,
                (None, None) => true,
                _ => false,
            },
    {
        match &self.registered {
            Some(r) => Some(r.node.path.as_str().to_owned()),
            None => None,
        }
    }

    /// The node is open and set up.
    pub fn registered(&mut self, node: Node, label: String)
        ensures
            *final(self) == (V4l2LoopbackSink {
                registered: Some(RegisteredDevice { node, label }),
                ..*old(self)
            }),
    {
        self.registered = Some(RegisteredDevice { node, label });
    }

    /// The camera is given up. What was in use has to be closed, and the node with
    /// the number that comes back has to be removed after that.
    pub fn unregister(&mut self) -> (remove: Option<u32>)
        ensures
            final(self).registered is None,
            final(self).explicit == old(self).explicit,
            remove == match old(self).registered {
                Some(r) => r.node.owned_nr,
                None => None,
            },
    {
        match self.registered.take() {
            Some(r) => r.node.owned_nr,
            None => None,
        }
    }

    /// Begins to write a frame of `len` bytes. There must be a node to write to.
    pub fn begin_write(&self, len: usize) -> (r: Result<FrameWrite, CameraError>)
        ensures
            match r {
                Ok(w) => self.registered is Some && w.total == len && w.offset == 0,
                Err(e) => self.registered is None && e == CameraError::BackendUnavailable,
            },
    {
        match &self.registered {
            Some(_) => Ok(FrameWrite { total: len, offset: 0 }),
            None => Err(CameraError::BackendUnavailable),
        }
    }
}

// ---- writing a frame ------------------------------------------------------------------------

/// What one write to the node came to.
#[derive(Debug)]
pub enum Wrote {
    Bytes(usize),
    /// Interrupted, or the node was not ready.
    Again,
    Failed(String),
}

#[derive(Debug)]
pub enum WriteNext {
    /// Write what lies behind the offset.
    More,
    Done,
    Fail(CameraError),
}

/// A frame that is being written.
#[derive(Debug, Clone, Copy, PartialEq, Eq, Structural)]
pub struct FrameWrite {
    pub total: usize,
    pub offset: usize,
}

impl FrameWrite {
    pub open spec fn wf(self) -> bool {
        self.offset <= self.total
    }

    /// Whether there is anything left to write.
    pub fn next(&self) -> (n: WriteNext)
        ensures
            self.offset < self.total ==> n is More,
            self.offset >= self.total ==> n is Done,
    {
        if self.offset < self.total {
            WriteNext::More
        } else {
            WriteNext::Done
        }
    }

    /// Goes on after one write. A write that moved nothing ends the frame, so that
    /// no time is spent in vain; one that was interrupted is tried again.
    pub fn step(&mut self, wrote: Wrote) -> (n: WriteNext)
        requires
            old(self).wf(),
        ensures
            final(self).wf(),
            final(self).total == old(self).total,
            match wrote {
                Wrote::Failed(why) => n == WriteNext::Fail(CameraError::Io(why)) && final(
                    self).offset == old(self).offset,
                Wrote::Again => final(self).offset == old(self).offset && if old(self).offset
                    < old(self).total {
                    n is More
                } else {
                    n is Done
                },
                Wrote::Bytes(k) => if k == 0 {
                    final(self).offset == old(self).offset && (n matches WriteNext::Fail(
                        CameraError::Io(why),
                    ) && why@ == "v4l2loopback write returned 0"@)
                } else if old(self).offset + k < old(self).total {
                    final(self).offset == old(self).offset + k && n is More
                } else {
                    final(self).offset == old(self).total && n is Done
                },
            },
    {
        match wrote {
            Wrote::Failed(why) => WriteNext::Fail(CameraError::Io(why)),
            Wrote::Again => self.next(),
            Wrote::Bytes(k) => {
                if k == 0 {
                    return WriteNext::Fail(
                        CameraError::Io("v4l2loopback write returned 0".to_owned()),
                    );
                }
                if k < self.total - self.offset {
                    self.offset += k;
                } else {
                    self.offset = self.total;
                }
                self.next()
            },
        }
    }
}

// ---- what a camera is for ----------------------------------------------------------------------

/// The codes of the picture formats are those that video devices know.
pub proof fn formats_have_their_code(f: CameraPixelFormat, s: &str)
    requires
        call_ensures(CameraPixelFormat::fourcc, (f,), s),
    ensures
        f == CameraPixelFormat::Yuyv ==> s@ == "YUYV"@,
        f == CameraPixelFormat::Nv12 ==> s@ == "NV12"@,
        f == CameraPixelFormat::Mjpeg ==> s@ == "MJPG"@,
{
}

proof fn printable_stays(name: Seq<char>)
    requires
        forall|i: int| 0 <= i < name.len() ==> !is_control(#[trigger] name[i]),
    ensures
        printable(name) == name,
    decreases name.len(),
{
    reveal(Seq::filter);
    if name.len() > 0 {
        let front = name.drop_last();
        assert forall|i: int| 0 <= i < front.len() implies !is_control(#[trigger] front[i]) by {
            assert(front[i] == name[i]);
        }
        printable_stays(front);
        assert(!is_control(name[name.len() - 1]));
        assert(printable(name) =~= front.push(name.last()));
        assert(front.push(name.last()) =~= name);
    } else {
        assert(printable(name) =~= name);
    }
}

/// A camera has the name of its peer, with the name of this program behind it, whole
/// where there is room for it. Without a name it has that of the program.
pub proof fn cameras_have_the_name_of_their_peer(name: &str, label: String)
    requires
        call_ensures(build_card_label, (name,), label),
    ensures
        encode_utf8(label@).len() <= 31,
        name@.len() > 0 && (forall|i: int| 0 <= i < name@.len() ==> !is_control(#[trigger] name@[i]))
            && !crate::text::is_white(name@[0]) && !crate::text::is_white(name@.last()) ==> {
            &&& encode_utf8(name@ + " (Ansync)"@).len() <= 31 ==> label@ == name@ + " (Ansync)"@
            &&& label@ == (name@ + " (Ansync)"@).take(label@.len() as int)
        },
        name@.len() == 0 ==> label@ == "Ansync"@.take(label@.len() as int),
{
    if name@.len() > 0 && (forall|i: int|
        0 <= i < name@.len() ==> !is_control(#[trigger] name@[i])) && !crate::text::is_white(
        name@[0],
    ) && !crate::text::is_white(name@.last()) {
        printable_stays(name@);
        crate::text::trimming_takes_both_ends_off(name@, Cut::White);
        let whole = name@ + " (Ansync)"@;
        assert(whole_label(name@) == whole);
        if encode_utf8(whole).len() <= 31 && label@.len() < whole.len() {
            longer_takes_more(whole, label@.len() as int + 1);
        }
        assert(label@.len() == whole.len() ==> label@ =~= whole);
    }
    if name@.len() == 0 {
        printable_stays(name@);
        assert(trimmed(name@, Cut::White).len() == 0);
    }
}

proof fn longer_takes_more(s: Seq<char>, n: int)
    requires
        0 <= n <= s.len(),
    ensures
        encode_utf8(s.take(n)).len() <= encode_utf8(s).len(),
    decreases s.len() - n,
{
    if n < s.len() {
        longer_takes_more(s, n + 1);
        assert(s.take(n + 1) =~= s.take(n).push(s[n]));
        crate::text::encode_utf8_push(s.take(n), s[n]);
    } else {
        assert(s.take(n) =~= s);
    }
}

/// A node is added with the size of the picture, no other, and with its label, behind
/// which zeros stand.
pub proof fn nodes_have_the_size_of_the_picture(label: &str, w: u32, h: u32, cfg: LoopbackConfig)
    requires
        call_ensures(loopback_config, (label, w, h), cfg),
    ensures
        cfg.min_width == w && cfg.max_width == w,
        cfg.min_height == h && cfg.max_height == h,
        cfg.output_nr == -1,
        forall|i: int|
            0 <= i < 31 && i < encode_utf8(label@).len() ==> #[trigger] cfg.card_label@[i]
                == encode_utf8(label@)[i],
        forall|i: int|
            encode_utf8(label@).len() <= i < 32 ==> #[trigger] cfg.card_label@[i] == 0,
        cfg.card_label@[31] == 0,
{
}

/// A node may be added from version 0.15.0 of the control on. A version is told by its
/// three numbers.
pub proof fn old_controls_are_not_used(
    v: u32,
    r: Result<(), CameraError>,
    s: String,
    a: nat,
    b: nat,
    c: nat,
)
    requires
        call_ensures(may_add, (Ok::<u32, CameraError>(v),), r),
        call_ensures(format_version, (v,), s),
        v == 0x1_0000 * a + 0x100 * b + c,
        a < 256,
        b < 256,
        c < 256,
    ensures
        r is Ok <==> a > 0 || b >= 15,
        s@ == decimal(a) + "."@ + decimal(b) + "."@ + decimal(c),
{
    assert(v / 0x10000 % 0x100 == a);
    assert(v / 0x100 % 0x100 == b);
    assert(v % 0x100 == c);
}

/// A node that this program added is the one it uses, and it is given back; one that it
/// was told of or that it found is used and never taken away.
pub proof fn only_own_nodes_are_taken_away(
    path: String,
    control: bool,
    told: Source,
    nr: u32,
    added: Source,
    found: Result<Node, CameraError>,
    node: Node,
    back: Option<u32>,
)
    requires
        call_ensures(first_source, (&Some(path), control), told),
        call_ensures(after_add, (Ok::<u32, CameraError>(nr),), added),
        call_ensures(after_scan, (Ok::<String, CameraError>(path),), found),
        call_ensures(to_roll_back, (&node,), back),
    ensures
        told matches Source::Use(n) && n.path@ == path@ && (n == node ==> back is None),
        added matches Source::Use(n) && n.path@ == "/dev/video"@ + decimal(nr as nat) && (n == node
            ==> back == Some(nr)),
        found matches Ok(n) && n.path@ == path@ && (n == node ==> back is None),
{
}

/// Without a path that was told, a node is added where that can be done, and else
/// looked for; it is looked for too where adding one fails.
pub proof fn nodes_are_added_or_found(control: bool, s: Source, e: CameraError, t: Source)
    requires
        call_ensures(first_source, (&None::<String>, control), s),
        call_ensures(after_add, (Err::<u32, CameraError>(e),), t),
    ensures
        control ==> s is Add,
        !control ==> s is Scan,
        t is Scan,
{
}

/// A sink that has a node tells its path, and gives back its own node, once. It writes
/// only while it has one.
pub proof fn sinks_give_back_their_node()
    ensures
        forall|
            s: &mut V4l2LoopbackSink,
            node: Node,
            label: String,
            t: &mut V4l2LoopbackSink,
            back: Option<u32>,
        |
            #![trigger call_ensures(V4l2LoopbackSink::registered, (s, node, label), ()),
                call_ensures(V4l2LoopbackSink::unregister, (t,), back)]
            call_ensures(V4l2LoopbackSink::registered, (s, node, label), ()) && *t == *final(s)
                && call_ensures(V4l2LoopbackSink::unregister, (t,), back) ==> back == node.owned_nr
                && final(t).registered is None,
        forall|s: &mut V4l2LoopbackSink, node: Node, label: String, p: Option<String>|
            #![trigger call_ensures(V4l2LoopbackSink::registered, (s, node, label), ()),
                call_ensures(V4l2LoopbackSink::device_path, (final(s),), p)]
            call_ensures(V4l2LoopbackSink::registered, (s, node, label), ()) && call_ensures(
                V4l2LoopbackSink::device_path,
                (final(s),),
                p,
            ) ==> (p matches Some(q) && q@ == node.path@),
        forall|s: &mut V4l2LoopbackSink, back: Option<u32>|
            #[trigger] call_ensures(V4l2LoopbackSink::unregister, (s,), back) && s.registered is None
                ==> back is None,
        forall|s: V4l2LoopbackSink, len: usize, r: Result<FrameWrite, CameraError>|
            #[trigger] call_ensures(V4l2LoopbackSink::begin_write, (&s, len), r) ==> {
                &&& r is Ok <==> s.registered is Some
                &&& r matches Ok(w) ==> w.offset == 0 && w.total == len
            },
{
}

/// A picture is written to its end: bytes that were written are not written again, none
/// is left out, and it is done exactly when all are written.
pub proof fn pictures_are_written_to_the_end()
    ensures
        forall|w: &mut FrameWrite, wrote: Wrote, n: WriteNext|
            #[trigger] call_ensures(FrameWrite::step, (w, wrote), n) && w.offset < w.total ==> {
                &&& wrote matches Wrote::Bytes(k) ==> (0 < k <= w.total - w.offset ==> final(w).offset == w.offset + k && (n is Done <==> w.offset + k == w.total) && (n is More
                    <==> w.offset + k < w.total))
                &&& wrote is Again ==> final(w).offset == w.offset && n is More
                &&& wrote is Failed ==> n is Fail
                &&& wrote matches Wrote::Bytes(k) ==> (k == 0 ==> n is Fail)
            },
        forall|w: FrameWrite, n: WriteNext|
            #[trigger] call_ensures(FrameWrite::next, (&w,), n) ==> (n is Done <==> w.offset
                >= w.total) && (n is More <==> w.offset < w.total),
{
}

/// The search goes over every video node, in order, and stops at the first that pictures
/// can be written to.
pub proof fn search_stops_at_an_output()
    ensures
        forall|s: &mut OutputSearch, caps: Option<u32>, found: bool|
            #[trigger] call_ensures(OutputSearch::judge, (s, caps), found) ==> {
                &&& found ==> final(s).at == s.at
                &&& !found ==> final(s).at == s.at + 1
                &&& caps is None ==> !found
                &&& caps matches Some(c) ==> (found <==> (c / 2) % 2 == 1)
                &&& final(s).candidates == s.candidates
            },
        forall|s: OutputSearch, r: Result<String, CameraError>|
            #[trigger] call_ensures(OutputSearch::candidate, (&s,), r) ==> {
                &&& r is Ok <==> s.at < s.candidates@.len()
                &&& r matches Ok(p) ==> p@ == "/dev/"@ + s.candidates@[s.at as int]@
            },
{
}

/// Nodes are found by their name, and each is tried.
pub proof fn video_nodes_are_candidates(names: Vec<String>, r: Vec<String>, i: int)
    requires
        call_ensures(video_candidates, (&names,), r),
        0 <= i < names@.len(),
    ensures
        has_prefix(names@[i]@, "video"@) ==> texts(r@).contains(names@[i]@),
        texts(r@).contains(names@[i]@) ==> has_prefix(names@[i]@, "video"@),
{
    broadcast use vstd::seq_lib::group_filter_ensures;
    broadcast use vstd::seq_lib::group_to_multiset_ensures;

    let all = texts(names@);
    let pred = |n: Seq<char>| has_prefix(n, "video"@);
    let name = all[i];
    assert(name == names@[i]@);
    assert(video_names(all) == all.filter(pred));
    if pred(name) {
        assert(all.filter(pred).contains(name));
        assert(all.filter(pred).to_multiset().count(name) > 0);
        assert(texts(r@).contains(name));
    }
    if texts(r@).contains(name) {
        assert(texts(r@).to_multiset().count(name) > 0);
        assert(all.filter(pred).contains(name));
        let k = choose|k: int| 0 <= k < all.filter(pred).len() && all.filter(pred)[k] == name;
        assert(pred(all.filter(pred)[k]));
    }
}

/// A text comes before any that goes on from it, and where two differ at their first
/// character that decides.
pub proof fn texts_are_ordered_by_their_first_difference(
    a: Seq<char>,
    b: Seq<char>,
    x: char,
    y: char,
)
    ensures
        in_order(a, a + b),
        in_order(seq![x] + a, seq![x] + b) == in_order(a, b),
        x < y ==> in_order(seq![x] + a, seq![y] + b) && !in_order(seq![y] + b, seq![x] + a),
    decreases a.len(),
{
    assert((seq![x] + a).skip(1) =~= a);
    assert((seq![x] + b).skip(1) =~= b);
    if a.len() > 0 {
        texts_are_ordered_by_their_first_difference(a.skip(1), b, x, y);
        assert((a + b).skip(1) =~= a.skip(1) + b);
    }
}

/// What failed in looking for a node is told as it was; where there is nothing left to
/// try, there is no camera.
pub proof fn failed_searches_are_told(
    e: CameraError,
    r: Result<Node, CameraError>,
    s: OutputSearch,
    c: Result<String, CameraError>,
    v: Result<(), CameraError>,
    o: Removal,
    gone: Result<(), CameraError>,
)
    requires
        call_ensures(after_scan, (Err::<String, CameraError>(e),), r),
        call_ensures(OutputSearch::candidate, (&s,), c),
        call_ensures(may_add, (Err::<u32, CameraError>(e),), v),
        call_ensures(removed, (o,), gone),
    ensures
        r == Err::<Node, CameraError>(e),
        v == Err::<(), CameraError>(e),
        c is Err ==> c->Err_0 == CameraError::BackendUnavailable,
        o is Removed || o is NoControl ==> gone is Ok,
        o is OpenFailed ==> gone is Err,
        o matches Removal::Refused { errno, why } ==> (gone is Ok <==> errno == 19),
{
}

/// A sink uses the path it was given, and a new one has no node yet.
pub proof fn sinks_begin_without_a_node(
    path: String,
    s: V4l2LoopbackSink,
    t: V4l2LoopbackSink,
    caps: Option<u32>,
    out: bool,
)
    requires
        call_ensures(V4l2LoopbackSink::with_path, (path,), s),
        call_ensures(V4l2LoopbackSink::new, (), t),
        call_ensures(is_output, (caps,), out),
    ensures
        s.explicit == Some(path) && s.registered is None,
        t.explicit is None && t.registered is None,
        caps is None ==> !out,
        caps matches Some(c) ==> (out <==> c / 2 % 2 == 1),
{
}

} // verus!
