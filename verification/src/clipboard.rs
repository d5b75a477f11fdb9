//! The clipboard: what is offered, what is taken, and how an echo between two
//! devices is stopped.

use vstd::prelude::*;
use vstd::string::*;
use vstd::utf8::*;

use crate::bytes_le::push_all;
use crate::digest::{sha256, sha256_digest};
use crate::hex_text::{hex_chars, hex_encode};
use crate::kotlin::{push_sized_text, sized_text};
use crate::text::{concat, has_prefix, lossy_text, starts_with, text_of_bytes_lossy, texts};

verus! {

#[derive(Debug, Clone)]
pub enum ClipboardContent {
    Text(String),
    Blob { mime: String, data: Vec<u8> },
}

#[derive(Debug, Clone)]
pub enum ClipboardError {
    BackendUnavailable,
    Io(String),
}

/// Why the clipboard cannot be watched.
#[derive(Debug, Clone)]
pub enum WatcherError {
    Connect(String),
    ProtocolUnsupported,
    NoSeat,
    Thread(String),
}

/// Access to the clipboard of the desktop.
pub trait ClipboardBackend {
    fn read(&self) -> Result<ClipboardContent, ClipboardError>;

    fn write(&self, content: ClipboardContent) -> Result<(), ClipboardError>;
}

/// The clipboard of a Wayland desktop. It keeps nothing; every call goes to the
/// compositor.
#[derive(Debug, Clone, Copy, PartialEq, Eq, Structural)]
pub struct WaylandClipboard;

impl WaylandClipboard {
    pub fn new() -> (c: Self)
        ensures
            c == WaylandClipboard,
    {
        WaylandClipboard
    }
}

// ---- choosing among the offered types ------------------------------------------------------

/// Image types, the best first.
pub open spec fn image_types() -> Seq<Seq<char>> {
    seq![
        "image/png"@,
        "image/jpeg"@,
        "image/jpg"@,
        "image/webp"@,
        "image/gif"@,
        "image/bmp"@,
        "image/tiff"@,
    ]
}

/// Types of plain text, the best first.
pub open spec fn text_types() -> Seq<Seq<char>> {
    seq![
        "text/plain;charset=utf-8"@,
        "text/plain;charset=UTF-8"@,
        "UTF8_STRING"@,
        "text/plain"@,
        "STRING"@,
    ]
}

/// The first of `wanted`, from place `i` on, that is offered.
pub open spec fn first_offered(wanted: Seq<Seq<char>>, offer: Seq<Seq<char>>, i: int) -> Option<
    Seq<char>,
>
    decreases wanted.len() - i,
{
    if i < 0 || i >= wanted.len() {
        None
    } else if offer.contains(wanted[i]) {
        Some(wanted[i])
    } else {
        first_offered(wanted, offer, i + 1)
    }
}

/// The first offered type, from place `i` on, that begins with `prefix`.
pub open spec fn first_with_prefix(offer: Seq<Seq<char>>, prefix: Seq<char>, i: int) -> Option<
    Seq<char>,
>
    decreases offer.len() - i,
{
    if i < 0 || i >= offer.len() {
        None
    } else if has_prefix(offer[i], prefix) {
        Some(offer[i])
    } else {
        first_with_prefix(offer, prefix, i + 1)
    }
}

/// The best of the offered types: an image, then plain text, then any other
/// text, then whatever comes first.
pub open spec fn best_type(offer: Seq<Seq<char>>) -> Option<Seq<char>> {
    if first_offered(image_types(), offer, 0) is Some {
        first_offered(image_types(), offer, 0)
    } else if first_with_prefix(offer, "image/"@, 0) is Some {
        first_with_prefix(offer, "image/"@, 0)
    } else if first_offered(text_types(), offer, 0) is Some {
        first_offered(text_types(), offer, 0)
    } else if first_with_prefix(offer, "text/"@, 0) is Some {
        first_with_prefix(offer, "text/"@, 0)
    } else if offer.len() > 0 {
        Some(offer[0])
    } else {
        None
    }
}

fn image_type(i: usize) -> (s: &'static str)
    requires
        i < 7,
    ensures
        s@ == image_types()[i as int],
{
    match i {
        0 => "image/png",
        1 => "image/jpeg",
        2 => "image/jpg",
        3 => "image/webp",
        4 => "image/gif",
        5 => "image/bmp",
        _ => "image/tiff",
    }
}

fn text_type(i: usize) -> (s: &'static str)
    requires
        i < 5,
    ensures
        s@ == text_types()[i as int],
{
    match i {
        0 => "text/plain;charset=utf-8",
        1 => "text/plain;charset=UTF-8",
        2 => "UTF8_STRING",
        3 => "text/plain",
        _ => "STRING",
    }
}

fn offers(offer: &Vec<String>, wanted: &str) -> (r: bool)
    ensures
        r == texts(offer@).contains(wanted@),
{
    let mut i: usize = 0;
    while i < offer.len()
        invariant
            i <= offer.len(),
            forall|k: int| 0 <= k < i ==> texts(offer@)[k] != wanted@,
        decreases offer.len() - i,
    {
        if *offer[i].as_str() == *wanted {
            assert(texts(offer@)[i as int] == wanted@);
            return true;
        }
        assert(texts(offer@)[i as int] == offer@[i as int]@);
        i += 1;
    }
    false
}

fn find_with_prefix(offer: &Vec<String>, prefix: &str) -> (r: Option<usize>)
    ensures
        match r {
            Some(i) => i < offer@.len() && first_with_prefix(texts(offer@), prefix@, 0) == Some(
                offer@[i as int]@,
            ),
            None => first_with_prefix(texts(offer@), prefix@, 0) is None,
        },
{
    let mut i: usize = 0;
    while i < offer.len()
        invariant
            i <= offer.len(),
            first_with_prefix(texts(offer@), prefix@, 0) == first_with_prefix(
                texts(offer@),
                prefix@,
                i as int,
            ),
        decreases offer.len() - i,
    {
        assert(texts(offer@)[i as int] == offer@[i as int]@);
        if starts_with(offer[i].as_str(), prefix) {
            return Some(i);
        }
        i += 1;
    }
    None
}

/// Picks the type to ask for among those that are offered. Nothing is picked
/// only where nothing is offered.
pub fn pick_best_mime(offer: &Vec<String>) -> (r: Option<String>)
    ensures
        match (r, best_type(texts(offer@))) {
            (Some(s), Some(t)) => s@ == t,
            (None, None) => true,
            _ => false,
        },
        r is None <==> offer@.len() == 0,
{
    if offer.len() == 0 {
        assert(texts(offer@).len() == 0);
        proof {
            nothing_offered(image_types(), texts(offer@), 0);
            nothing_offered(text_types(), texts(offer@), 0);
        }
        return None;
    }
    let mut i: usize = 0;
    while i < 7
        invariant
            i <= 7,
            first_offered(image_types(), texts(offer@), 0) == first_offered(
                image_types(),
                texts(offer@),
                i as int,
            ),
            offer@.len() > 0,
        decreases 7 - i,
    {
        let wanted = image_type(i);
        if offers(offer, wanted) {
            return Some(wanted.to_owned());
        }
        i += 1;
    }
    if let Some(k) = find_with_prefix(offer, "image/") {
        return Some(offer[k].clone());
    }
    let mut j: usize = 0;
    while j < 5
        invariant
            j <= 5,
            first_offered(image_types(), texts(offer@), 0) is None,
            first_with_prefix(texts(offer@), "image/"@, 0) is None,
            first_offered(text_types(), texts(offer@), 0) == first_offered(
                text_types(),
                texts(offer@),
                j as int,
            ),
            offer@.len() > 0,
        decreases 5 - j,
    {
        let wanted = text_type(j);
        if offers(offer, wanted) {
            return Some(wanted.to_owned());
        }
        j += 1;
    }
    if let Some(k) = find_with_prefix(offer, "text/") {
        return Some(offer[k].clone());
    }
    assert(texts(offer@)[0] == offer@[0]@);
    Some(offer[0].clone())
}

proof fn nothing_offered(wanted: Seq<Seq<char>>, offer: Seq<Seq<char>>, i: int)
    requires
        offer.len() == 0,
    ensures
        first_offered(wanted, offer, i) is None,
    decreases wanted.len() - i,
{
    if 0 <= i < wanted.len() {
        nothing_offered(wanted, offer, i + 1);
    }
}

/// What is picked was offered.
pub proof fn best_type_is_offered(offer: Seq<Seq<char>>)
    ensures
        best_type(offer) matches Some(t) ==> offer.contains(t),
{
    listed_is_offered(image_types(), offer, 0);
    listed_is_offered(text_types(), offer, 0);
    prefixed_is_offered(offer, "image/"@, 0);
    prefixed_is_offered(offer, "text/"@, 0);
}

proof fn listed_is_offered(wanted: Seq<Seq<char>>, offer: Seq<Seq<char>>, i: int)
    ensures
        first_offered(wanted, offer, i) matches Some(t) ==> offer.contains(t),
    decreases wanted.len() - i,
{
    if 0 <= i < wanted.len() {
        listed_is_offered(wanted, offer, i + 1);
    }
}

proof fn prefixed_is_offered(offer: Seq<Seq<char>>, prefix: Seq<char>, i: int)
    ensures
        first_with_prefix(offer, prefix, i) matches Some(t) ==> offer.contains(t) && has_prefix(
            t,
            prefix,
        ),
    decreases offer.len() - i,
{
    if 0 <= i < offer.len() {
        prefixed_is_offered(offer, prefix, i + 1);
    }
}

/// An offered image is preferred to everything that is no image.
pub proof fn images_come_first(offer: Seq<Seq<char>>, image: Seq<char>)
    requires
        offer.contains(image),
        has_prefix(image, "image/"@),
    ensures
        best_type(offer) matches Some(t) && has_prefix(t, "image/"@),
{
    let at = choose|i: int| 0 <= i < offer.len() && offer[i] == image;
    prefix_is_found(offer, "image/"@, 0, at);
    prefixed_is_offered(offer, "image/"@, 0);
    listed_images(offer, 0);
}

proof fn prefix_is_found(offer: Seq<Seq<char>>, prefix: Seq<char>, i: int, at: int)
    requires
        0 <= i <= at < offer.len(),
        has_prefix(offer[at], prefix),
    ensures
        first_with_prefix(offer, prefix, i) is Some,
    decreases offer.len() - i,
{
    if i < at && !has_prefix(offer[i], prefix) {
        prefix_is_found(offer, prefix, i + 1, at);
    }
}

proof fn listed_images(offer: Seq<Seq<char>>, i: int)
    requires
        0 <= i <= 7,
    ensures
        first_offered(image_types(), offer, i) matches Some(t) ==> has_prefix(t, "image/"@),
    decreases 7 - i,
{
    if i < 7 {
        reveal_strlit("image/");
        reveal_strlit("image/png");
        reveal_strlit("image/jpeg");
        reveal_strlit("image/jpg");
        reveal_strlit("image/webp");
        reveal_strlit("image/gif");
        reveal_strlit("image/bmp");
        reveal_strlit("image/tiff");
        let t = image_types()[i];
        assert(t.take(6) =~= "image/"@);
        listed_images(offer, i + 1);
    }
}

/// The content that bytes of a type are. Text of any kind but HTML is text;
/// everything else is kept as bytes.
pub open spec fn reads_as(mime: String, data: Vec<u8>, c: ClipboardContent) -> bool {
    if has_prefix(mime@, "text/"@) && !has_prefix(mime@, "text/html"@) {
        c matches ClipboardContent::Text(s) && s@ == lossy_text(data@)
    } else {
        c == (ClipboardContent::Blob { mime, data })
    }
}

pub fn pasted(mime: String, data: Vec<u8>) -> (c: ClipboardContent)
    ensures
        reads_as(mime, data, c),
{
    if starts_with(mime.as_str(), "text/") && !starts_with(mime.as_str(), "text/html") {
        ClipboardContent::Text(text_of_bytes_lossy(&data))
    } else {
        ClipboardContent::Blob { mime, data }
    }
}

/// Why nothing could be pasted.
#[derive(Debug, Clone, Copy, PartialEq, Eq, Structural)]
pub enum PasteFailure {
    Empty,
    NoMimeType,
    Other,
}

/// How a read of the clipboard goes on.
#[derive(Debug)]
pub enum ReadStep {
    /// Ask for the content in this type.
    Ask(String),
    Done(Result<ClipboardContent, ClipboardError>),
}

/// What a failed paste reads as: an empty clipboard is empty text.
pub open spec fn failed_read(why: PasteFailure, r: Result<ClipboardContent, ClipboardError>) -> bool {
    if why == PasteFailure::Other {
        r matches Err(e) && e is BackendUnavailable
    } else {
        r matches Ok(ClipboardContent::Text(s)) && s@ == ""@
    }
}

fn paste_failed(why: PasteFailure) -> (r: Result<ClipboardContent, ClipboardError>)
    ensures
        failed_read(why, r),
{
    match why {
        PasteFailure::Empty | PasteFailure::NoMimeType => Ok(ClipboardContent::Text("".to_owned())),
        PasteFailure::Other => Err(ClipboardError::BackendUnavailable),
    }
}

/// The types on offer are known, or could not be asked for. The best of them is
/// asked for; an offer of none is an empty clipboard.
pub fn types_offered(offer: Result<Vec<String>, PasteFailure>) -> (step: ReadStep)
    ensures
        match offer {
            Ok(types) => match (best_type(texts(types@)), step) {
                (Some(t), ReadStep::Ask(m)) => m@ == t,
                (None, ReadStep::Done(r)) => failed_read(PasteFailure::Empty, r),
                _ => false,
            },
            Err(why) => step matches ReadStep::Done(r) && failed_read(why, r),
        },
{
    match offer {
        Ok(types) => match pick_best_mime(&types) {
            Some(mime) => ReadStep::Ask(mime),
            None => ReadStep::Done(paste_failed(PasteFailure::Empty)),
        },
        Err(why) => ReadStep::Done(paste_failed(why)),
    }
}

/// The content as it reads: what type it came in and its bytes, or why there is
/// none.
pub fn content_arrived(content: Result<(String, Vec<u8>), PasteFailure>) -> (r: Result<
    ClipboardContent,
    ClipboardError,
>)
    ensures
        match content {
            Ok((mime, data)) => r matches Ok(c) && reads_as(mime, data, c),
            Err(why) => failed_read(why, r),
        },
{
    match content {
        Ok((mime, data)) => Ok(pasted(mime, data)),
        Err(why) => paste_failed(why),
    }
}

/// What is put on the clipboard: the bytes, and their type unless they are plain
/// text.
pub fn to_copy(content: ClipboardContent) -> (r: (Vec<u8>, Option<String>))
    ensures
        match content {
            ClipboardContent::Text(s) => r.0@ == encode_utf8(s@) && r.1 is None,
            ClipboardContent::Blob { mime, data } => r == (data, Some(mime)),
        },
{
    match content {
        ClipboardContent::Text(s) => {
            let mut data: Vec<u8> = Vec::new();
            push_all(&mut data, s.as_str().as_bytes());
            assert(data@ =~= encode_utf8(s@));
            (data, None)
        },
        ClipboardContent::Blob { mime, data } => (data, Some(mime)),
    }
}

// ---- watching -------------------------------------------------------------------------------

/// What the compositor tells a watcher; `T` is an offer of it.
pub enum WatchEvent<T> {
    /// An offer was introduced.
    Offer(T),
    /// The selection changed or was cleared.
    Selection,
    /// The primary selection changed or was cleared.
    PrimarySelection,
    /// The compositor withdrew the device.
    Finished,
    Other,
}

/// Takes in one event: whether the clipboard is to be read again, and the offers
/// that are to be given up. Offers are held until the next change, and then all
/// of them are given up.
pub fn watched<T>(held: &mut Vec<T>, event: WatchEvent<T>) -> (r: (bool, Vec<T>))
    ensures
        r.0 == (event is Selection || event is PrimarySelection),
        match event {
            WatchEvent::Offer(o) => final(held)@ == old(held)@.push(o) && r.1@ == Seq::<T>::empty(),
            WatchEvent::Selection | WatchEvent::PrimarySelection => final(held)@ == Seq::<T>::empty()
                && r.1@ == old(held)@,
            WatchEvent::Finished | WatchEvent::Other => final(held)@ == old(held)@ && r.1@ == Seq::<
                T,
            >::empty(),
        },
{
    let mut given_up: Vec<T> = Vec::new();
    match event {
        WatchEvent::Offer(o) => {
            held.push(o);
            (false, given_up)
        },
        WatchEvent::Selection | WatchEvent::PrimarySelection => {
            std::mem::swap(held, &mut given_up);
            (true, given_up)
        },
        WatchEvent::Finished | WatchEvent::Other => (false, given_up),
    }
}

// ---- fingerprints and echoes ----------------------------------------------------------------

/// What a fingerprint is the digest of: a tag for the kind, then the content.
pub open spec fn tagged(content: ClipboardContent) -> Seq<u8> {
    match content {
        ClipboardContent::Text(s) => seq![116u8, 58] + encode_utf8(s@),
        ClipboardContent::Blob { mime, data } => seq![98u8, 58] + encode_utf8(mime@) + seq![0u8]
            + data@,
    }
}

/// The fingerprint of some content: the digest of it in hexadecimal.
pub open spec fn fingerprint_of(content: ClipboardContent) -> Seq<char> {
    hex_chars(sha256_digest(tagged(content)))
}

pub fn clipboard_fingerprint(content: &ClipboardContent) -> (s: String)
    ensures
        s@ == fingerprint_of(*content),
{
    let mut buf: Vec<u8> = Vec::new();
    match content {
        ClipboardContent::Text(s) => {
            buf.push(116);
            buf.push(58);
            push_all(&mut buf, s.as_str().as_bytes());
        },
        ClipboardContent::Blob { mime, data } => {
            buf.push(98);
            buf.push(58);
            push_all(&mut buf, mime.as_str().as_bytes());
            buf.push(0);
            push_all(&mut buf, data.as_slice());
        },
    }
    assert(buf@ =~= tagged(*content));
    hex_encode(sha256(buf.as_slice()).as_slice())
}

/// Text and bytes are never hashed as the same thing.
pub proof fn kinds_are_tagged_apart(a: ClipboardContent, b: ClipboardContent)
    requires
        a is Text,
        b is Blob,
    ensures
        tagged(a) != tagged(b),
{
    assert(tagged(a)[0] == 116);
    assert(tagged(b)[0] == 98);
}

/// The fingerprint of what either side handled last. There is one of these for all
/// who handle the clipboard, and it is shared, not copied: each sees what another set.
#[derive(Debug)]
pub struct ClipboardSync {
    pub last: Option<String>,
}

impl View for ClipboardSync {
    type V = Option<Seq<char>>;

    open spec fn view(&self) -> Option<Seq<char>> {
        match self.last {
            Some(s) => Some(s@),
            None => None,
        }
    }
}

/// What is remembered once content from a peer was handled, and whether the
/// clipboard is written: only with permission, and not if the content is what was
/// handled last.
pub open spec fn after_inbound(
    last: Option<Seq<char>>,
    allowed: bool,
    content: ClipboardContent,
) -> (Option<Seq<char>>, bool) {
    if allowed && last != Some(fingerprint_of(content)) {
        (Some(fingerprint_of(content)), true)
    } else {
        (last, false)
    }
}

/// What is remembered once the clipboard changed here, and whether the peers are
/// told: not if the content is what was handled last.
pub open spec fn after_change(last: Option<Seq<char>>, content: ClipboardContent) -> (
    Option<Seq<char>>,
    bool,
) {
    (Some(fingerprint_of(content)), last != Some(fingerprint_of(content)))
}

impl Default for ClipboardSync {
    fn default() -> (s: Self)
        ensures
            s@ is None,
    {
        ClipboardSync { last: None }
    }
}

impl ClipboardSync {
    pub fn matches(&self, fp: &str) -> (r: bool)
        ensures
            r == (self@ == Some(fp@)),
    {
        match &self.last {
            Some(s) => *s.as_str() == *fp,
            None => false,
        }
    }

    pub fn set(&mut self, fp: String)
        ensures
            final(self)@ == Some(fp@),
    {
        self.last = Some(fp);
    }

    /// Content came from a peer. Whether it is put into the clipboard.
    pub fn inbound(&mut self, allowed: bool, content: &ClipboardContent) -> (write: bool)
        ensures
            (final(self)@, write) == after_inbound(old(self)@, allowed, *content),
    {
        if !allowed {
            return false;
        }
        let fp = clipboard_fingerprint(content);
        if self.matches(fp.as_str()) {
            return false;
        }
        self.set(fp);
        true
    }

    /// The clipboard changed here. Whether the peers are told.
    pub fn changed(&mut self, content: &ClipboardContent) -> (push: bool)
        ensures
            (final(self)@, push) == after_change(old(self)@, *content),
    {
        let fp = clipboard_fingerprint(content);
        if self.matches(fp.as_str()) {
            return false;
        }
        self.set(fp);
        true
    }

    /// The user asked to push the clipboard, which is done in any case.
    pub fn pushed(&mut self, content: &ClipboardContent)
        ensures
            final(self)@ == Some(fingerprint_of(*content)),
    {
        let fp = clipboard_fingerprint(content);
        self.set(fp);
    }
}

/// The states of one value that began as the default and had these fingerprints set,
/// one after the other, by whichever of its holders.
pub open spec fn set_in_turn(states: Seq<ClipboardSync>, set: Seq<Seq<char>>) -> bool {
    &&& states.len() == set.len() + 1
    &&& states[0]@ is None
    &&& forall|i: int| 0 <= i < set.len() ==> states[i + 1]@ == Some(#[trigger] set[i])
}

/// However often and by whomever a fingerprint was set, only the latest one matches;
/// before the first, none does.
pub proof fn latest_set_matches(states: Seq<ClipboardSync>, set: Seq<Seq<char>>, fp: Seq<char>)
    requires
        set_in_turn(states, set),
    ensures
        states.last()@ == Some(fp) <==> set.len() > 0 && set.last() == fp,
{
    if set.len() > 0 {
        assert(states[set.len() - 1 + 1]@ == Some(set[set.len() - 1]));
    }
}

/// What was pushed to a peer and comes back from it is not written, and what is
/// remembered stays.
pub proof fn pushed_content_is_not_written_back(
    last: Option<Seq<char>>,
    content: ClipboardContent,
    allowed: bool,
)
    ensures
        ({
            let pushed = after_change(last, content).0;
            after_inbound(pushed, allowed, content) == (pushed, false)
        }),
{
}

/// What was written for a peer, and is then seen as a change here, is not pushed.
pub proof fn written_content_is_not_pushed_back(
    last: Option<Seq<char>>,
    content: ClipboardContent,
)
    ensures
        ({
            let written = after_inbound(last, true, content).0;
            after_change(written, content) == (written, false)
        }),
{
}

/// Whether a change is sent to a peer, given what the check of its permission
/// said: a check that failed counts as a refusal.
pub fn sent_to(check: Result<bool, String>) -> (send: bool)
    ensures
        send == (check matches Ok(b) && b),
{
    match check {
        Ok(b) => b,
        Err(_) => false,
    }
}

/// A type and bytes as one blob for the Android side.
pub open spec fn blob_bytes(mime: Seq<char>, data: Seq<u8>) -> Seq<u8> {
    sized_text(mime) + data
}

pub fn encode_blob(mime: &String, data: &Vec<u8>) -> (out: Vec<u8>)
    ensures
        out@ == blob_bytes(mime@, data@),
{
    let mut out: Vec<u8> = Vec::new();
    push_sized_text(&mut out, mime);
    push_all(&mut out, data.as_slice());
    out
}

impl ClipboardError {
    pub open spec fn text(self) -> Seq<char> {
        match self {
            ClipboardError::BackendUnavailable => "backend unavailable"@,
            ClipboardError::Io(why) => "io: "@ + why@,
        }
    }

    /// The error in words.
    pub fn message(&self) -> (s: String)
        ensures
            s@ == self.text(),
    {
        match self {
            ClipboardError::BackendUnavailable => "backend unavailable".to_owned(),
            ClipboardError::Io(why) => concat("io: ", why.as_str()),
        }
    }
}

impl WatcherError {
    pub open spec fn text(self) -> Seq<char> {
        match self {
            WatcherError::Connect(why) =>
                "WAYLAND_DISPLAY not set or compositor unreachable: "@ + why@,
            WatcherError::ProtocolUnsupported =>
                "compositor does not advertise zwlr_data_control_manager_v1 (try sway / KDE / hyprland)"@,
            WatcherError::NoSeat => "compositor has no wl_seat global"@,
            WatcherError::Thread(why) => "worker thread panicked: "@ + why@,
        }
    }

    /// The error in words.
    pub fn message(&self) -> (s: String)
        ensures
            s@ == self.text(),
    {
        match self {
            WatcherError::Connect(why) => concat(
                "WAYLAND_DISPLAY not set or compositor unreachable: ",
                why.as_str(),
            ),
            WatcherError::ProtocolUnsupported =>
                "compositor does not advertise zwlr_data_control_manager_v1 (try sway / KDE / hyprland)".to_owned(),
            WatcherError::NoSeat => "compositor has no wl_seat global".to_owned(),
            WatcherError::Thread(why) => concat("worker thread panicked: ", why.as_str()),
        }
    }
}

// ---- what clipboards are for --------------------------------------------------------------

/// What is copied on a peer arrives here: with permission, content that is not what was
/// handled last is written, and is then what was handled last. Without permission
/// nothing is written or remembered.
pub proof fn new_content_is_written(last: Option<Seq<char>>, content: ClipboardContent)
    ensures
        last != Some(fingerprint_of(content)) ==> after_inbound(last, true, content) == (
            Some(fingerprint_of(content)),
            true,
        ),
        last == Some(fingerprint_of(content)) ==> !after_inbound(last, true, content).1,
        after_inbound(last, false, content) == (last, false),
{
}

/// What is copied here is told to the peers, unless it is what was handled last; either
/// way it is what was handled last from then on.
pub proof fn new_change_is_pushed(last: Option<Seq<char>>, content: ClipboardContent)
    ensures
        after_change(last, content).1 <==> last != Some(fingerprint_of(content)),
        after_change(last, content).0 == Some(fingerprint_of(content)),
{
}

/// Two contents that come one after the other are both written if they differ, and a
/// content that comes twice is written once; the same of changes that are told.
pub proof fn differing_contents_both_arrive(
    last: Option<Seq<char>>,
    a: ClipboardContent,
    b: ClipboardContent,
)
    ensures
        ({
            let (then, _) = after_inbound(last, true, a);
            after_inbound(then, true, b).1 <==> fingerprint_of(a) != fingerprint_of(b)
        }),
        ({
            let (then, _) = after_change(last, a);
            after_change(then, b).1 <==> fingerprint_of(a) != fingerprint_of(b)
        }),
{
}

/// Whether content is written or told is decided by what was handled last, and what was
/// written or told is what was handled last from then on.
pub proof fn sync_answers_by_what_it_remembers()
    ensures
        forall|m: &mut ClipboardSync, allowed: bool, c: ClipboardContent, write: bool|
            #[trigger] call_ensures(ClipboardSync::inbound, (m, allowed, &c), write) ==> {
                &&& write <==> allowed && m@ != Some(fingerprint_of(c))
                &&& write ==> final(m)@ == Some(fingerprint_of(c))
                &&& !write ==> final(m)@ == m@
            },
        forall|m: &mut ClipboardSync, c: ClipboardContent, push: bool|
            #[trigger] call_ensures(ClipboardSync::changed, (m, &c), push) ==> {
                &&& push <==> m@ != Some(fingerprint_of(c))
                &&& final(m)@ == Some(fingerprint_of(c))
            },
        forall|m: &mut ClipboardSync, c: ClipboardContent|
            #[trigger] call_ensures(ClipboardSync::pushed, (m, &c), ()) ==> final(m)@ == Some(
                fingerprint_of(c),
            ),
        forall|m: &mut ClipboardSync, fp: String|
            #[trigger] call_ensures(ClipboardSync::set, (m, fp), ()) ==> final(m)@ == Some(fp@),
        forall|s: ClipboardSync, fp: &str, r: bool|
            #[trigger] call_ensures(ClipboardSync::matches, (&s, fp), r) ==> (r <==> s@ == Some(
                fp@,
            )),
{
}

/// Texts that differ are hashed as different things, and so are bytes of one type that
/// differ, or the same bytes of two types.
pub proof fn differing_contents_are_tagged_apart(a: String, b: String, x: Vec<u8>, y: Vec<u8>)
    ensures
        a@ != b@ ==> tagged(ClipboardContent::Text(a)) != tagged(ClipboardContent::Text(b)),
        x@ != y@ ==> tagged((ClipboardContent::Blob { mime: a, data: x })) != tagged(
            (ClipboardContent::Blob { mime: a, data: y }),
        ),
        a@ != b@ ==> tagged((ClipboardContent::Blob { mime: a, data: x })) != tagged(
            (ClipboardContent::Blob { mime: b, data: x }),
        ),
{
    let (ta, tb) = (tagged(ClipboardContent::Text(a)), tagged(ClipboardContent::Text(b)));
    let (ea, eb) = (encode_utf8(a@), encode_utf8(b@));
    encode_utf8_decode_utf8(a@);
    encode_utf8_decode_utf8(b@);
    if ta == tb {
        assert(ta.skip(2) =~= ea);
        assert(tb.skip(2) =~= eb);
    }
    let bx = tagged((ClipboardContent::Blob { mime: a, data: x }));
    let by = tagged((ClipboardContent::Blob { mime: a, data: y }));
    if bx == by {
        assert(bx.skip(3 + ea.len() as int) =~= x@);
        assert(by.skip(3 + ea.len() as int) =~= y@);
    }
    let bb = tagged((ClipboardContent::Blob { mime: b, data: x }));
    if bx == bb {
        assert(bx.len() == 3 + ea.len() + x@.len());
        assert(bb.len() == 3 + eb.len() + x@.len());
        assert(bx.subrange(2, 2 + ea.len() as int) =~= ea);
        assert(bb.subrange(2, 2 + ea.len() as int) =~= eb);
    }
}

proof fn first_offered_is(wanted: Seq<Seq<char>>, offer: Seq<Seq<char>>, i: int, at: int)
    requires
        0 <= i <= at < wanted.len(),
        offer.contains(wanted[at]),
        forall|k: int| i <= k < at ==> !offer.contains(#[trigger] wanted[k]),
    ensures
        first_offered(wanted, offer, i) == Some(wanted[at]),
    decreases at - i,
{
    if i < at {
        assert(!offer.contains(wanted[i]));
        first_offered_is(wanted, offer, i + 1, at);
    }
}

proof fn none_offered(wanted: Seq<Seq<char>>, offer: Seq<Seq<char>>, i: int)
    requires
        0 <= i,
        forall|k: int| i <= k < wanted.len() ==> !offer.contains(#[trigger] wanted[k]),
    ensures
        first_offered(wanted, offer, i) is None,
    decreases wanted.len() - i,
{
    if i < wanted.len() {
        assert(!offer.contains(wanted[i]));
        none_offered(wanted, offer, i + 1);
    }
}

proof fn none_with_prefix(offer: Seq<Seq<char>>, prefix: Seq<char>, i: int)
    requires
        0 <= i,
        forall|k: int| i <= k < offer.len() ==> !has_prefix(#[trigger] offer[k], prefix),
    ensures
        first_with_prefix(offer, prefix, i) is None,
    decreases offer.len() - i,
{
    if i < offer.len() {
        assert(!has_prefix(offer[i], prefix));
        none_with_prefix(offer, prefix, i + 1);
    }
}

/// Among the images PNG comes before JPEG, JPEG before WebP and WebP before GIF.
pub proof fn images_are_ranked(offer: Seq<Seq<char>>)
    ensures
        offer.contains("image/png"@) ==> best_type(offer) == Some("image/png"@),
        !offer.contains("image/png"@) && offer.contains("image/jpeg"@) ==> best_type(offer) == Some(
            "image/jpeg"@,
        ),
        !offer.contains("image/png"@) && !offer.contains("image/jpeg"@) && !offer.contains(
            "image/jpg"@,
        ) && offer.contains("image/webp"@) ==> best_type(offer) == Some("image/webp"@),
        !offer.contains("image/png"@) && !offer.contains("image/jpeg"@) && !offer.contains(
            "image/jpg"@,
        ) && !offer.contains("image/webp"@) && offer.contains("image/gif"@) ==> best_type(offer)
            == Some("image/gif"@),
{
    let w = image_types();
    if offer.contains(w[0]) {
        first_offered_is(w, offer, 0, 0);
    } else if offer.contains(w[1]) {
        first_offered_is(w, offer, 0, 1);
    } else if !offer.contains(w[2]) {
        if offer.contains(w[3]) {
            first_offered_is(w, offer, 0, 3);
        } else if offer.contains(w[4]) {
            first_offered_is(w, offer, 0, 4);
        }
    }
}

proof fn no_image_offered(offer: Seq<Seq<char>>)
    requires
        forall|k: int| 0 <= k < offer.len() ==> !has_prefix(#[trigger] offer[k], "image/"@),
    ensures
        first_offered(image_types(), offer, 0) is None,
        first_with_prefix(offer, "image/"@, 0) is None,
{
    none_with_prefix(offer, "image/"@, 0);
    listed_is_offered(image_types(), offer, 0);
    listed_images(offer, 0);
    if let Some(t) = first_offered(image_types(), offer, 0) {
        let at = choose|i: int| 0 <= i < offer.len() && offer[i] == t;
        assert(!has_prefix(offer[at], "image/"@));
    }
}

/// Where no image is offered, plain text comes before all else, in UTF-8 where it is
/// offered so, and other text before what is no text.
pub proof fn plain_text_comes_next(offer: Seq<Seq<char>>, t: Seq<char>)
    requires
        forall|k: int| 0 <= k < offer.len() ==> !has_prefix(#[trigger] offer[k], "image/"@),
        offer.contains(t),
    ensures
        offer.contains("text/plain;charset=utf-8"@) ==> best_type(offer) == Some(
            "text/plain;charset=utf-8"@,
        ),
        t == "text/plain;charset=UTF-8"@ || t == "UTF8_STRING"@ || t == "text/plain"@ || t
            == "STRING"@ ==> (best_type(offer) matches Some(b) && (b == "text/plain;charset=utf-8"@
            || b == "text/plain;charset=UTF-8"@ || b == "UTF8_STRING"@ || b == "text/plain"@ || b
            == "STRING"@)),
        has_prefix(t, "text/"@) ==> (best_type(offer) matches Some(b) && (has_prefix(b, "text/"@)
            || b == "UTF8_STRING"@ || b == "STRING"@)),
        best_type(offer) is Some,
{
    no_image_offered(offer);
    let w = text_types();
    reveal_strlit("text/");
    reveal_strlit("text/plain;charset=utf-8");
    reveal_strlit("text/plain;charset=UTF-8");
    reveal_strlit("text/plain");
    assert(w[0].take(5) =~= "text/"@);
    assert(w[1].take(5) =~= "text/"@);
    assert(w[3].take(5) =~= "text/"@);
    if offer.contains(w[0]) {
        first_offered_is(w, offer, 0, 0);
    } else if offer.contains(w[1]) {
        first_offered_is(w, offer, 0, 1);
    } else if offer.contains(w[2]) {
        first_offered_is(w, offer, 0, 2);
    } else if offer.contains(w[3]) {
        first_offered_is(w, offer, 0, 3);
    } else if offer.contains(w[4]) {
        first_offered_is(w, offer, 0, 4);
    } else {
        none_offered(w, offer, 0);
        if has_prefix(t, "text/"@) {
            let at = choose|i: int| 0 <= i < offer.len() && offer[i] == t;
            prefix_is_found(offer, "text/"@, 0, at);
            prefixed_is_offered(offer, "text/"@, 0);
        }
    }
}

/// Bytes of a type read as text if the type is a text other than HTML, and else stay
/// what they are, so that copying them gives the same bytes of the same type. Text is
/// copied as its UTF-8, without a type.
pub proof fn pasting_and_copying(mime: String, data: Vec<u8>, c: ClipboardContent, r: (
    Vec<u8>,
    Option<String>,
))
    requires
        call_ensures(pasted, (mime, data), c),
        call_ensures(to_copy, (c,), r),
    ensures
        c is Text <==> has_prefix(mime@, "text/"@) && !has_prefix(mime@, "text/html"@),
        c is Blob ==> r == (data, Some(mime)),
        c matches ClipboardContent::Text(s) ==> s@ == lossy_text(data@) && r.0@ == encode_utf8(s@)
            && r.1 is None,
{
}

/// An empty clipboard reads as empty text, and only a clipboard that cannot be reached
/// is an error.
pub proof fn empty_clipboard_is_empty_text(
    why: PasteFailure,
    read: Result<ClipboardContent, ClipboardError>,
    step: ReadStep,
)
    requires
        call_ensures(content_arrived, (Err::<(String, Vec<u8>), PasteFailure>(why),), read),
        call_ensures(types_offered, (Err::<Vec<String>, PasteFailure>(why),), step),
    ensures
        read is Err <==> why == PasteFailure::Other,
        read matches Ok(c) ==> (c matches ClipboardContent::Text(s) && s@.len() == 0),
        step matches ReadStep::Done(r) && (r is Err <==> why == PasteFailure::Other) && (
        r matches Ok(c) ==> (c matches ClipboardContent::Text(s) && s@.len() == 0)),
{
    reveal_strlit("");
}

/// A change of either selection, and nothing else, has the clipboard read again. No
/// offer is lost: each is held until then, and given up exactly once.
pub proof fn offers_are_held_until_a_change<T>()
    ensures
        forall|held: &mut Vec<T>, event: WatchEvent<T>, r: (bool, Vec<T>)|
            #[trigger] call_ensures(watched::<T>, (held, event), r) ==> {
                &&& r.0 <==> event is Selection || event is PrimarySelection
                &&& r.1@ + final(held)@ == (match event {
                    WatchEvent::Offer(o) => held@.push(o),
                    _ => held@,
                })
                &&& r.0 ==> final(held)@.len() == 0
                &&& !r.0 ==> r.1@.len() == 0
            },
{
    assert forall|held: &mut Vec<T>, event: WatchEvent<T>, r: (bool, Vec<T>)| #[trigger]
        call_ensures(watched::<T>, (held, event), r) implies {
        &&& r.0 <==> event is Selection || event is PrimarySelection
        &&& r.1@ + final(held)@ == (match event {
            WatchEvent::Offer(o) => held@.push(o),
            _ => held@,
        })
        &&& r.0 ==> final(held)@.len() == 0
        &&& !r.0 ==> r.1@.len() == 0
    } by {
        assert(r.1@ + final(held)@ =~= (match event {
            WatchEvent::Offer(o) => held@.push(o),
            _ => held@,
        }));
    }
}

/// A change goes only to a peer whose permission was found to be given.
pub proof fn only_the_permitted_are_told(check: Result<bool, String>, send: bool)
    requires
        call_ensures(sent_to, (check,), send),
    ensures
        send <==> check == Ok::<bool, String>(true),
{
}

/// A blob for the companion has the length of its type, the type, and then its bytes.
pub proof fn blobs_are_laid_out(mime: Seq<char>, data: Seq<u8>)
    requires
        encode_utf8(mime).len() < 0x1_0000_0000,
    ensures
        ({
            let s = blob_bytes(mime, data);
            let n = encode_utf8(mime).len() as int;
            &&& crate::bytes_le::value32(s, 0) == n
            &&& s.subrange(4, 4 + n) == encode_utf8(mime)
            &&& s.skip(4 + n) == data
        }),
{
    let s = blob_bytes(mime, data);
    let n = encode_utf8(mime).len() as int;
    assert(s.subrange(0, 4) =~= crate::bytes_le::le32(n));
    crate::bytes_le::le32_reads_back(s, 0, n);
    assert(s.subrange(4, 4 + n) =~= encode_utf8(mime));
    assert(s.skip(4 + n) =~= data);
}

/// What is picked from an offer is the best of it, what is hashed is the content with its
/// kind, and a blob is its type and its bytes.
pub proof fn best_offer_is_picked(
    offer: Vec<String>,
    best: Option<String>,
    c: ClipboardContent,
    fp: String,
    mime: String,
    data: Vec<u8>,
    blob: Vec<u8>,
)
    requires
        call_ensures(pick_best_mime, (&offer,), best),
        call_ensures(clipboard_fingerprint, (&c,), fp),
        call_ensures(encode_blob, (&mime, &data), blob),
    ensures
        best is Some <==> best_type(crate::text::texts(offer@)) is Some,
        best matches Some(s) ==> best_type(crate::text::texts(offer@)) == Some(s@),
        fp@ == hex_chars(sha256_digest(tagged(c))),
        blob@ == blob_bytes(mime@, data@),
{
}

/// What is hashed begins with a letter for its kind and a colon; a text then follows as
/// it is, and bytes follow their type and a zero.
pub proof fn contents_are_tagged_by_kind(c: ClipboardContent)
    ensures
        tagged(c).len() >= 2 && tagged(c)[1] == 0x3a,
        c is Text <==> tagged(c)[0] == 0x74,
        c is Blob <==> tagged(c)[0] == 0x62,
        c matches ClipboardContent::Text(s) ==> tagged(c).skip(2) == encode_utf8(s@),
        c matches ClipboardContent::Blob { mime, data } ==> {
            let n = encode_utf8(mime@).len() as int;
            &&& tagged(c).subrange(2, 2 + n) == encode_utf8(mime@)
            &&& tagged(c)[2 + n] == 0
            &&& tagged(c).skip(3 + n) == data@
        },
{
    match c {
        ClipboardContent::Text(s) => {
            assert(tagged(c).skip(2) =~= encode_utf8(s@));
        },
        ClipboardContent::Blob { mime, data } => {
            let n = encode_utf8(mime@).len() as int;
            assert(tagged(c).subrange(2, 2 + n) =~= encode_utf8(mime@));
            assert(tagged(c).skip(3 + n) =~= data@);
        },
    }
}

} // verus!
