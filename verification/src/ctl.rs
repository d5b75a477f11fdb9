//! The command line: which request a command becomes, when the user is asked for
//! the PIN, and the lines that are printed.

use vstd::prelude::*;
use vstd::string::*;

use crate::files::{join_path, joined_path};
use crate::text::{
    concat, decimal, decimal_string, join, joined, pieces_at, split_at, texts,
};
use crate::wire::{AudioDirection, CameraAspect, VideoCodec};

verus! {

// ---- pairing ----------------------------------------------------------------------------

/// What the daemon is asked for to pair.
#[derive(Debug, PartialEq, Eq)]
pub enum PairCall {
    StartPairing { addr: String },
    PairOverCable { serial: String, apk: String },
    PairAuto { seconds: u32, apk: String },
}

/// An address goes before a cable, and without either the daemon chooses.
pub fn pair_call(serial: Option<String>, addr: Option<String>, apk: Option<String>, seconds: u32) -> (c:
    PairCall)
    ensures
        match (addr, serial) {
            (Some(a), _) => c == (PairCall::StartPairing { addr: a }),
            (None, Some(s)) => c matches PairCall::PairOverCable { serial: t, apk: p } && t == s
                && p@ == match apk {
                Some(q) => q@,
                None => seq![],
            },
            (None, None) => c matches PairCall::PairAuto { seconds: n, apk: p } && n == seconds
                && p@ == match apk {
                Some(q) => q@,
                None => seq![],
            },
        },
{
    let apk: String = match apk {
        Some(p) => p,
        None => String::new(),
    };
    match (addr, serial) {
        (Some(addr), _) => PairCall::StartPairing { addr },
        (None, Some(serial)) => PairCall::PairOverCable { serial, apk },
        (None, None) => PairCall::PairAuto { seconds, apk },
    }
}

/// The words for a state of pairing.
pub open spec fn state_words(state: Seq<char>) -> Option<Seq<char>> {
    if state == "discovering"@ {
        Some("daemon scanning for transport…"@)
    } else if state == "dialing"@ {
        Some("dialing companion…"@)
    } else if state == "awaiting_pin"@ {
        Some("companion sent BootstrapAck"@)
    } else if state == "verifying"@ {
        Some("verifying PIN…"@)
    } else if state == "ok"@ {
        Some("done"@)
    } else if state == "failed"@ {
        Some("failed"@)
    } else {
        None
    }
}

pub fn pretty_state(state: &str) -> (r: Option<&'static str>)
    ensures
        match (r, state_words(state@)) {
            (Some(s), Some(w)) => s@ == w,
            (None, None) => true,
            _ => false,
        },
{
    if *state == *"discovering" {
        Some("daemon scanning for transport…")
    } else if *state == *"dialing" {
        Some("dialing companion…")
    } else if *state == *"awaiting_pin" {
        Some("companion sent BootstrapAck")
    } else if *state == *"verifying" {
        Some("verifying PIN…")
    } else if *state == *"ok" {
        Some("done")
    } else if *state == *"failed" {
        Some("failed")
    } else {
        None
    }
}

/// Whether the user is asked for the PIN in a state.
pub open spec fn asks_pin(submitted: bool, state: Seq<char>) -> bool {
    !submitted && state == "awaiting_pin"@
}

/// What was seen of a session of pairing.
#[derive(Debug)]
pub struct PairWatch {
    pub last_state: String,
    pub pin_submitted: bool,
}

/// What to do with a state that was read.
#[derive(Debug)]
pub struct PairTodo {
    pub print: Option<&'static str>,
    pub ask_pin: bool,
}

impl PairWatch {
    /// The session was just begun. Where it waits for the PIN already, the user is
    /// asked at once.
    pub fn begin(first: Option<&str>) -> (r: (Self, bool))
        ensures
            r.1 == (first is Some && first->0@ == "awaiting_pin"@),
            r.0.pin_submitted == r.1,
            r.0.last_state@ == Seq::<char>::empty(),
    {
        let ask = match first {
            Some(s) => *s == *"awaiting_pin",
            None => false,
        };
        (PairWatch { last_state: String::new(), pin_submitted: ask }, ask)
    }

    /// The state was read again. A new one is told, and the user is asked for the
    /// PIN the first time it is waited for.
    pub fn state_read(&mut self, state: &str) -> (todo: PairTodo)
        ensures
            final(self).last_state@ == state@,
            todo.ask_pin == asks_pin(old(self).pin_submitted, state@),
            final(self).pin_submitted == (old(self).pin_submitted || todo.ask_pin),
            match todo.print {
                Some(s) => old(self).last_state@ != state@ && state_words(state@) == Some(s@),
                None => old(self).last_state@ == state@ || state_words(state@) is None,
            },
    {
        let mut print: Option<&'static str> = None;
        if !(*self.last_state.as_str() == *state) {
            print = pretty_state(state);
            self.last_state = state.to_owned();
        }
        let ask_pin = !self.pin_submitted && *state == *"awaiting_pin";
        if ask_pin {
            self.pin_submitted = true;
        }
        PairTodo { print, ask_pin }
    }
}

/// How often the user is asked for the PIN while these states are read in turn.
pub open spec fn times_asked(submitted: bool, states: Seq<Seq<char>>) -> nat
    decreases states.len(),
{
    if states.len() == 0 {
        0
    } else {
        let asked = asks_pin(submitted, states[0]);
        times_asked(submitted || asked, states.skip(1)) + if asked {
            1nat
        } else {
            0nat
        }
    }
}

/// However often the state of a session is read, the user is asked for the PIN at
/// most once; and once it is waited for, they are asked.
pub proof fn pin_is_asked_once(submitted: bool, states: Seq<Seq<char>>)
    ensures
        times_asked(submitted, states) <= 1,
        times_asked(submitted, states) == 1 <==> !submitted && states.contains("awaiting_pin"@),
    decreases states.len(),
{
    if states.len() > 0 {
        let asked = asks_pin(submitted, states[0]);
        let rest = states.skip(1);
        pin_is_asked_once(submitted || asked, rest);
        if rest.contains("awaiting_pin"@) {
            let i = choose|i: int| 0 <= i < rest.len() && rest[i] == "awaiting_pin"@;
            assert(states[i + 1] == "awaiting_pin"@);
        }
        if states.contains("awaiting_pin"@) && states[0] != "awaiting_pin"@ {
            let i = choose|i: int| 0 <= i < states.len() && states[i] == "awaiting_pin"@;
            assert(rest[i - 1] == "awaiting_pin"@);
        }
    }
}

/// The line for a session that went well.
pub fn paired_line(device_id: &str, name: &str) -> (s: String)
    ensures
        s@ == "paired: device_id="@ + device_id@ + " name="@ + name@,
{
    let mut line = concat("paired: device_id=", device_id);
    line.append(" name=");
    line.append(name);
    line
}

/// The complaint about a session that did not.
pub fn pair_failure(reason: &str) -> (s: String)
    ensures
        s@ == "pair failed: "@ + reason@,
{
    concat("pair failed: ", reason)
}

/// The headline of the notification that leads the user on to their phone.
pub fn setup_summary(name: &str) -> (s: String)
    ensures
        s@ == "Ansync paired with "@ + name@,
{
    concat("Ansync paired with ", name)
}

// ---- words for streams -----------------------------------------------------------------------

/// The word for a codec of video.
pub open spec fn codec_word(c: VideoCodec) -> Seq<char> {
    match c {
        VideoCodec::H264 => "h264"@,
        VideoCodec::H265 => "h265"@,
    }
}

pub fn read_codec(word: &str) -> (r: Option<VideoCodec>)
    ensures
        match r {
            Some(c) => word@ == codec_word(c),
            None => forall|c: VideoCodec| word@ != #[trigger] codec_word(c),
        },
        word@ == "h264"@ <==> r == Some(VideoCodec::H264),
        word@ == "h265"@ <==> r == Some(VideoCodec::H265),
{
    proof {
        reveal_strlit("h264");
        reveal_strlit("h265");
        assert("h264"@[3] != "h265"@[3]);
    }
    if *word == *"h264" {
        Some(VideoCodec::H264)
    } else if *word == *"h265" {
        Some(VideoCodec::H265)
    } else {
        None
    }
}

/// The word for how a picture is fitted.
pub open spec fn aspect_word(a: CameraAspect) -> Seq<char> {
    match a {
        CameraAspect::Crop => "crop"@,
        CameraAspect::Letterbox => "letterbox"@,
        CameraAspect::Stretch => "stretch"@,
    }
}

pub fn read_aspect(word: &str) -> (r: Option<CameraAspect>)
    ensures
        match r {
            Some(a) => word@ == aspect_word(a),
            None => forall|a: CameraAspect| word@ != #[trigger] aspect_word(a),
        },
        word@ == "crop"@ <==> r == Some(CameraAspect::Crop),
        word@ == "letterbox"@ <==> r == Some(CameraAspect::Letterbox),
        word@ == "stretch"@ <==> r == Some(CameraAspect::Stretch),
{
    proof {
        reveal_strlit("crop");
        reveal_strlit("letterbox");
        reveal_strlit("stretch");
        assert("crop"@[0] != "letterbox"@[0]);
        assert("crop"@[0] != "stretch"@[0]);
        assert("letterbox"@[0] != "stretch"@[0]);
    }
    if *word == *"crop" {
        Some(CameraAspect::Crop)
    } else if *word == *"letterbox" {
        Some(CameraAspect::Letterbox)
    } else if *word == *"stretch" {
        Some(CameraAspect::Stretch)
    } else {
        None
    }
}

/// The word for the direction of sound.
pub open spec fn direction_word(d: AudioDirection) -> Seq<char> {
    match d {
        AudioDirection::HostToDevice => "host-to-device"@,
        AudioDirection::DeviceToHost => "device-to-host"@,
        AudioDirection::Both => "both"@,
    }
}

pub fn read_direction(word: &str) -> (r: Option<AudioDirection>)
    ensures
        match r {
            Some(d) => word@ == direction_word(d),
            None => forall|d: AudioDirection| word@ != #[trigger] direction_word(d),
        },
        word@ == "host-to-device"@ <==> r == Some(AudioDirection::HostToDevice),
        word@ == "device-to-host"@ <==> r == Some(AudioDirection::DeviceToHost),
        word@ == "both"@ <==> r == Some(AudioDirection::Both),
{
    proof {
        reveal_strlit("host-to-device");
        reveal_strlit("device-to-host");
        reveal_strlit("both");
        assert("host-to-device"@[0] != "device-to-host"@[0]);
        assert("host-to-device"@[0] != "both"@[0]);
        assert("device-to-host"@[0] != "both"@[0]);
    }
    if *word == *"host-to-device" {
        Some(AudioDirection::HostToDevice)
    } else if *word == *"device-to-host" {
        Some(AudioDirection::DeviceToHost)
    } else if *word == *"both" {
        Some(AudioDirection::Both)
    } else {
        None
    }
}

/// Whether a switch is to be on: `on` and `true` stand for yes, `off` and `false`
/// for no.
pub fn read_switch(word: &str) -> (r: Option<bool>)
    ensures
        word@ == "on"@ || word@ == "true"@ ==> r == Some(true),
        word@ == "off"@ || word@ == "false"@ ==> r == Some(false),
        r is None ==> word@ != "on"@ && word@ != "true"@ && word@ != "off"@ && word@ != "false"@,
        r == Some(true) ==> word@ == "on"@ || word@ == "true"@,
        r == Some(false) ==> word@ == "off"@ || word@ == "false"@,
{
    proof {
        reveal_strlit("on");
        reveal_strlit("true");
        reveal_strlit("off");
        reveal_strlit("false");
        assert("on"@.len() == 2 && "true"@.len() == 4 && "off"@.len() == 3 && "false"@.len() == 5);
    }
    if *word == *"on" || *word == *"true" {
        Some(true)
    } else if *word == *"off" || *word == *"false" {
        Some(false)
    } else {
        None
    }
}

/// Each word stands for one thing only.
pub proof fn words_tell_apart(
    c: VideoCodec,
    c2: VideoCodec,
    a: CameraAspect,
    a2: CameraAspect,
    d: AudioDirection,
    d2: AudioDirection,
)
    ensures
        codec_word(c) == codec_word(c2) ==> c == c2,
        aspect_word(a) == aspect_word(a2) ==> a == a2,
        direction_word(d) == direction_word(d2) ==> d == d2,
{
    reveal_strlit("h264");
    reveal_strlit("h265");
    reveal_strlit("crop");
    reveal_strlit("letterbox");
    reveal_strlit("stretch");
    reveal_strlit("host-to-device");
    reveal_strlit("device-to-host");
    reveal_strlit("both");
    assert(codec_word(c) == codec_word(c2) ==> codec_word(c)[3] == codec_word(c2)[3]);
    assert(aspect_word(a) == aspect_word(a2) ==> aspect_word(a).len() == aspect_word(a2).len());
    assert(direction_word(d) == direction_word(d2) ==> direction_word(d)[0] == direction_word(d2)[0]);
}

// ---- identity ------------------------------------------------------------------------------

/// Whether a new identity may be written. One that is there is not overwritten.
pub fn may_create_identity(path: &str, exists: bool) -> (r: Result<(), String>)
    ensures
        match r {
            Ok(_) => !exists,
            Err(why) => exists && why@ == "identity already exists at "@ + path@
                + " — refusing to overwrite"@,
        },
{
    if !exists {
        return Ok(());
    }
    let mut why = concat("identity already exists at ", path);
    why.append(" — refusing to overwrite");
    Err(why)
}

/// The path of the identity: the one that was asked for, or the one in the data
/// directory, which has to be known then.
pub fn identity_path(asked: Option<String>, data_dir: &Option<String>) -> (r: Result<String, String>)
    ensures
        match (asked, data_dir) {
            (Some(a), _) => r == Ok::<String, String>(a),
            (None, Some(d)) => r is Ok && r->Ok_0@ == joined_path(
                joined_path(d@, "ansync"@),
                "identity.key"@,
            ),
            (None, None) => r is Err && r->Err_0@ == "$HOME not set; cannot resolve XDG paths"@,
        },
{
    match (asked, data_dir) {
        (Some(a), _) => Ok(a),
        (None, Some(d)) => {
            let own = join_path(d.as_str(), "ansync");
            Ok(join_path(own.as_str(), "identity.key"))
        },
        (None, None) => Err("$HOME not set; cannot resolve XDG paths".to_owned()),
    }
}

/// The path as the daemon has to be given it, from the directory in which the
/// command runs.
pub fn absolute_path(cwd: &str, path: &str) -> (s: String)
    ensures
        s@ == if path@.len() > 0 && path@[0] == '/' {
            path@
        } else {
            joined_path(cwd@, path@)
        },
{
    if path.unicode_len() > 0 && path.get_char(0) == '/' {
        path.to_owned()
    } else {
        join_path(cwd, path)
    }
}

// ---- lines ---------------------------------------------------------------------------------

pub open spec fn spaces(n: int) -> Seq<char> {
    Seq::new(
        if n > 0 {
            n as nat
        } else {
            0
        },
        |i: int| ' ',
    )
}

/// A text with spaces behind it, up to a width.
pub open spec fn left_aligned(s: Seq<char>, width: int) -> Seq<char> {
    s + spaces(width - s.len())
}

/// A text with spaces in front of it, up to a width.
pub open spec fn right_aligned(s: Seq<char>, width: int) -> Seq<char> {
    spaces(width - s.len()) + s
}

fn push_spaces(s: &mut String, n: usize)
    ensures
        final(s)@ == old(s)@ + spaces(n as int),
{
    let mut i: usize = 0;
    assert(s@ =~= old(s)@ + spaces(0));
    while i < n
        invariant
            i <= n,
            s@ == old(s)@ + spaces(i as int),
        decreases n - i,
    {
        s.push(' ');
        i += 1;
        assert(s@ =~= old(s)@ + spaces(i as int));
    }
}

fn push_left(s: &mut String, text: &str, width: usize)
    ensures
        final(s)@ == old(s)@ + left_aligned(text@, width as int),
{
    let n: usize = text.unicode_len();
    s.append(text);
    if n < width {
        push_spaces(s, width - n);
    } else {
        assert(spaces(width - n) =~= Seq::<char>::empty());
    }
    assert(s@ =~= old(s)@ + left_aligned(text@, width as int));
}

fn push_right(s: &mut String, text: &str, width: usize)
    ensures
        final(s)@ == old(s)@ + right_aligned(text@, width as int),
{
    let n: usize = text.unicode_len();
    if n < width {
        push_spaces(s, width - n);
    } else {
        assert(spaces(width - n) =~= Seq::<char>::empty());
    }
    s.append(text);
    assert(s@ =~= old(s)@ + right_aligned(text@, width as int));
}

/// What is known of a device, for its line.
#[derive(Debug)]
pub struct DeviceRow {
    pub id: String,
    pub name: Option<String>,
    pub state: Option<String>,
    pub address: Option<String>,
    pub capabilities: Option<Vec<String>>,
    pub battery: Option<u8>,
}

pub open spec fn text_or(s: Option<String>, otherwise: Seq<char>) -> Seq<char> {
    match s {
        Some(t) => t@,
        None => otherwise,
    }
}

pub open spec fn device_row(r: DeviceRow) -> Seq<char> {
    r.id@ + "  "@ + left_aligned(text_or(r.name, seq![]), 24) + "  state="@ + left_aligned(
        text_or(r.state, "unknown"@),
        14,
    ) + "  battery="@ + right_aligned(
        decimal(
            match r.battery {
                Some(b) => b as nat,
                None => 0,
            },
        ),
        3,
    ) + "  addr="@ + left_aligned(text_or(r.address, seq![]), 22) + "  caps=["@ + joined(
        match r.capabilities {
            Some(v) => texts(v@),
            None => seq![],
        },
        ","@,
    ) + "]"@
}

fn as_text<'a>(s: &'a Option<String>, otherwise: &'a str) -> (t: &'a str)
    ensures
        t@ == text_or(*s, otherwise@),
{
    match s {
        Some(t) => t.as_str(),
        None => otherwise,
    }
}

/// The line of a device in the list of those that are paired.
pub fn device_line(r: &DeviceRow) -> (s: String)
    ensures
        s@ == device_row(*r),
{
    let none: Vec<String> = Vec::new();
    let list = match &r.capabilities {
        Some(v) => v,
        None => &none,
    };
    assert(texts(none@) =~= Seq::<Seq<char>>::empty());
    let caps = join(list, ",");
    let level: u64 = match r.battery {
        Some(b) => b as u64,
        None => 0,
    };
    let battery = decimal_string(level);
    proof {
        reveal_strlit("");
        assert(""@ =~= Seq::<char>::empty());
    }
    let mut s: String = r.id.as_str().to_owned();
    s.append("  ");
    push_left(&mut s, as_text(&r.name, ""), 24);
    s.append("  state=");
    push_left(&mut s, as_text(&r.state, "unknown"), 14);
    s.append("  battery=");
    push_right(&mut s, battery.as_str(), 3);
    s.append("  addr=");
    push_left(&mut s, as_text(&r.address, ""), 22);
    s.append("  caps=[");
    s.append(caps.as_str());
    s.append("]");
    s
}

/// The line of a companion that can be paired.
pub fn candidate_line(name: &str, addr: &str, pubkey: &str) -> (s: String)
    ensures
        s@ == left_aligned(name@, 24) + "  "@ + left_aligned(addr@, 22) + "  "@ + pubkey@,
{
    let mut s: String = String::new();
    push_left(&mut s, name, 24);
    s.append("  ");
    push_left(&mut s, addr, 22);
    s.append("  ");
    s.append(pubkey);
    assert(s@ =~= left_aligned(name@, 24) + "  "@ + left_aligned(addr@, 22) + "  "@ + pubkey@);
    s
}

/// What the daemon tells about devices as a whole.
#[derive(Debug)]
pub enum ManagerSignal {
    DeviceConnectivityChanged { id: String, state: String },
    DeviceReachable { id: String, addr: String },
    DeviceUnreachable { id: String },
}

pub open spec fn manager_text(m: ManagerSignal) -> Seq<char> {
    match m {
        ManagerSignal::DeviceConnectivityChanged { id, state } => "conn  "@ + id@ + "  "@ + state@,
        ManagerSignal::DeviceReachable { id, addr } => "up    "@ + id@ + "  "@ + addr@,
        ManagerSignal::DeviceUnreachable { id } => "down  "@ + id@,
    }
}

pub fn manager_line(m: &ManagerSignal) -> (s: String)
    ensures
        s@ == manager_text(*m),
{
    match m {
        ManagerSignal::DeviceConnectivityChanged { id, state } => {
            let mut s = concat("conn  ", id.as_str());
            s.append("  ");
            s.append(state.as_str());
            s
        },
        ManagerSignal::DeviceReachable { id, addr } => {
            let mut s = concat("up    ", id.as_str());
            s.append("  ");
            s.append(addr.as_str());
            s
        },
        ManagerSignal::DeviceUnreachable { id } => concat("down  ", id.as_str()),
    }
}

/// What the daemon tells about one device.
#[derive(Debug)]
pub enum DeviceSignal {
    StreamStateChanged { kind: String, active: bool },
    FileReceived { path: String },
    FileTransferProgress {
        batch_id: u64,
        transfer_id: u64,
        name: String,
        bytes: u64,
        total: u64,
        direction: String,
    },
    NotificationPosted { id: u64, app: String, title: String, body: String },
    NotificationRemoved { id: u64 },
}

pub open spec fn yes_no(b: bool) -> Seq<char> {
    if b {
        "true"@
    } else {
        "false"@
    }
}

pub open spec fn device_text(device: Seq<char>, m: DeviceSignal) -> Seq<char> {
    match m {
        DeviceSignal::StreamStateChanged { kind, active } => "stream "@ + device + "  "@ + kind@
            + "="@ + yes_no(active),
        DeviceSignal::FileReceived { path } => "file  "@ + device + "  "@ + path@,
        DeviceSignal::FileTransferProgress {
            batch_id,
            transfer_id,
            name,
            bytes,
            total,
            direction,
        } => "xfer  "@ + device + "  "@ + direction@ + " "@ + name@ + " "@ + decimal(bytes as nat)
            + "/"@ + decimal(total as nat) + "  (batch="@ + decimal(batch_id as nat) + " id="@
            + decimal(transfer_id as nat) + ")"@,
        DeviceSignal::NotificationPosted { id, app, title, body } => "notif "@ + device + "  ["@
            + decimal(id as nat) + "] "@ + app@ + " · "@ + title@ + " — "@ + body@,
        DeviceSignal::NotificationRemoved { id } => "notif "@ + device + "  ["@ + decimal(id as nat)
            + "] removed"@,
    }
}

pub fn device_signal_line(device: &str, m: &DeviceSignal) -> (s: String)
    ensures
        s@ == device_text(device@, *m),
{
    match m {
        DeviceSignal::StreamStateChanged { kind, active } => {
            let mut s = concat("stream ", device);
            s.append("  ");
            s.append(kind.as_str());
            s.append("=");
            if *active {
                s.append("true");
            } else {
                s.append("false");
            }
            s
        },
        DeviceSignal::FileReceived { path } => {
            let mut s = concat("file  ", device);
            s.append("  ");
            s.append(path.as_str());
            s
        },
        DeviceSignal::FileTransferProgress {
            batch_id,
            transfer_id,
            name,
            bytes,
            total,
            direction,
        } => {
            let mut s = concat("xfer  ", device);
            s.append("  ");
            s.append(direction.as_str());
            s.append(" ");
            s.append(name.as_str());
            s.append(" ");
            s.append(decimal_string(*bytes).as_str());
            s.append("/");
            s.append(decimal_string(*total).as_str());
            s.append("  (batch=");
            s.append(decimal_string(*batch_id).as_str());
            s.append(" id=");
            s.append(decimal_string(*transfer_id).as_str());
            s.append(")");
            s
        },
        DeviceSignal::NotificationPosted { id, app, title, body } => {
            let mut s = concat("notif ", device);
            s.append("  [");
            s.append(decimal_string(*id).as_str());
            s.append("] ");
            s.append(app.as_str());
            s.append(" · ");
            s.append(title.as_str());
            s.append(" — ");
            s.append(body.as_str());
            s
        },
        DeviceSignal::NotificationRemoved { id } => {
            let mut s = concat("notif ", device);
            s.append("  [");
            s.append(decimal_string(*id).as_str());
            s.append("] removed");
            s
        },
    }
}

/// The device that an object path is about: what stands behind its last slash.
pub fn signal_device(path: Option<&str>) -> (s: String)
    ensures
        s@ == match path {
            Some(p) => pieces_at(p@, '/').last(),
            None => "?"@,
        },
{
    match path {
        Some(p) => {
            let mut all = split_at(p, '/');
            let ghost before = texts(all@);
            match all.pop() {
                Some(last) => {
                    assert(before.last() == last@);
                    last
                },
                None => {
                    proof {
                        there_is_a_piece(p@);
                        assert(before.len() == 0);
                    }
                    String::new()
                },
            }
        },
        None => "?".to_owned(),
    }
}

proof fn there_is_a_piece(s: Seq<char>)
    ensures
        pieces_at(s, '/').len() > 0,
    decreases s.len(),
{
    if s.len() > 0 {
        there_is_a_piece(s.drop_last());
    }
}

// ---- what commands become ---------------------------------------------------------------------

/// An address is paired with over the network, and a cable with its device; with neither
/// the daemon looks for itself, for as long as was asked.
pub proof fn pairing_goes_where_it_was_asked(
    serial: Option<String>,
    addr: Option<String>,
    apk: Option<String>,
    seconds: u32,
    c: PairCall,
)
    requires
        call_ensures(pair_call, (serial, addr, apk, seconds), c),
    ensures
        addr matches Some(a) ==> c == (PairCall::StartPairing { addr: a }),
        addr is None && serial is Some ==> (c matches PairCall::PairOverCable { serial: s, .. } && s
            == serial->0),
        addr is None && serial is None ==> (c matches PairCall::PairAuto { seconds: n, .. } && n
            == seconds),
        apk matches Some(p) ==> {
            &&& c matches PairCall::PairOverCable { apk: q, .. } ==> q@ == p@
            &&& c matches PairCall::PairAuto { apk: q, .. } ==> q@ == p@
        },
{
}

/// A change of state is printed once, in words, and the PIN is asked for once, when the
/// companion waits for it.
pub proof fn states_are_told_once()
    ensures
        forall|w: &mut PairWatch, state: &str, did: PairTodo|
            #[trigger] call_ensures(PairWatch::state_read, (w, state), did) ==> {
                &&& final(w).last_state@ == state@
                &&& did.ask_pin <==> state@ == "awaiting_pin"@ && !w.pin_submitted
                &&& did.ask_pin ==> final(w).pin_submitted
                &&& state@ == w.last_state@ ==> did.print is None
                &&& state@ != w.last_state@ ==> {
                    &&& state@ == "discovering"@ ==> (did.print matches Some(s) && s@
                        == "daemon scanning for transport…"@)
                    &&& state@ == "ok"@ ==> (did.print matches Some(s) && s@ == "done"@)
                    &&& state@ == "failed"@ ==> (did.print matches Some(s) && s@ == "failed"@)
                    &&& state@ == "verifying"@ ==> (did.print matches Some(s) && s@
                        == "verifying PIN…"@)
                    &&& state@ == "dialing"@ ==> (did.print matches Some(s) && s@
                        == "dialing companion…"@)
                }
            },
{
    state_words_are_known();
}

proof fn state_words_are_known()
    ensures
        state_words("discovering"@) == Some("daemon scanning for transport…"@),
        state_words("dialing"@) == Some("dialing companion…"@),
        state_words("awaiting_pin"@) == Some("companion sent BootstrapAck"@),
        state_words("verifying"@) == Some("verifying PIN…"@),
        state_words("ok"@) == Some("done"@),
        state_words("failed"@) == Some("failed"@),
{
    reveal_strlit("discovering");
    reveal_strlit("dialing");
    reveal_strlit("awaiting_pin");
    reveal_strlit("verifying");
    reveal_strlit("ok");
    reveal_strlit("failed");
    assert("discovering"@.len() == 11 && "dialing"@.len() == 7 && "awaiting_pin"@.len() == 12
        && "verifying"@.len() == 9 && "ok"@.len() == 2 && "failed"@.len() == 6);
}

/// An identity that exists is never overwritten.
pub proof fn identities_are_not_overwritten(path: &str, exists_there: bool, r: Result<(), String>)
    requires
        call_ensures(may_create_identity, (path, exists_there), r),
    ensures
        r is Ok <==> !exists_there,
{
}

/// A path that was asked for is used, and else the one below the data directory.
pub proof fn asked_identity_is_used(
    asked: Option<String>,
    data: Option<String>,
    r: Result<String, String>,
)
    requires
        call_ensures(identity_path, (asked, &data), r),
    ensures
        asked matches Some(a) ==> r == Ok::<String, String>(a),
        asked is None ==> (r is Ok <==> data is Some),
        asked is None && data is Some ==> r->Ok_0@ == joined_path(
            joined_path(data->0@, "ansync"@),
            "identity.key"@,
        ),
{
}

/// A text in a column is as wide as the column, or as itself where it is wider; it
/// stands at the left, or at the right.
pub proof fn columns_are_filled(s: Seq<char>, width: int)
    ensures
        left_aligned(s, width).len() == (if s.len() >= width {
            s.len() as int
        } else {
            width
        }),
        right_aligned(s, width).len() == left_aligned(s, width).len(),
        left_aligned(s, width).take(s.len() as int) == s,
        right_aligned(s, width).skip(right_aligned(s, width).len() - s.len()) == s,
        forall|i: int| s.len() <= i < width ==> #[trigger] left_aligned(s, width)[i] == ' ',
        forall|i: int| 0 <= i < width - s.len() ==> #[trigger] right_aligned(s, width)[i] == ' ',
{
    assert(left_aligned(s, width).take(s.len() as int) =~= s);
    assert(right_aligned(s, width).skip(right_aligned(s, width).len() - s.len()) =~= s);
}

/// A path that begins at the root stays, and another is taken from where one is.
pub proof fn paths_are_taken_from_here(cwd: &str, path: &str, s: String)
    requires
        call_ensures(absolute_path, (cwd, path), s),
        path@.len() > 0,
    ensures
        path@[0] == '/' ==> s@ == path@,
        path@[0] != '/' && cwd@.len() > 0 && cwd@.last() != '/' ==> s@ == cwd@ + "/"@ + path@,
{
}

/// What happened is told with the device that it happened to and what it was.
pub proof fn lines_tell_what_happened(device: Seq<char>, m: DeviceSignal, g: ManagerSignal)
    ensures
        m matches DeviceSignal::FileReceived { path } ==> device_text(device, m) == "file  "@
            + device + "  "@ + path@,
        m matches DeviceSignal::StreamStateChanged { kind, active } ==> (active ==> device_text(
            device,
            m,
        ) == "stream "@ + device + "  "@ + kind@ + "="@ + "true"@) && (!active ==> device_text(
            device,
            m,
        ) == "stream "@ + device + "  "@ + kind@ + "="@ + "false"@),
        g matches ManagerSignal::DeviceReachable { id, addr } ==> manager_text(g) == "up    "@ + id@
            + "  "@ + addr@,
        g matches ManagerSignal::DeviceUnreachable { id } ==> manager_text(g) == "down  "@ + id@,
        g matches ManagerSignal::DeviceConnectivityChanged { id, state } ==> manager_text(g)
            == "conn  "@ + id@ + "  "@ + state@,
{
}

/// The device of a signal is the last part of its path.
pub proof fn signals_name_their_device(path: &str, s: String, head: Seq<char>, tail: Seq<char>)
    requires
        call_ensures(signal_device, (Some(path),), s),
        path@ == head + seq!['/'] + tail,
        !tail.contains('/'),
    ensures
        s@ == tail,
{
    last_piece(head, tail);
}

proof fn last_piece(head: Seq<char>, tail: Seq<char>)
    requires
        !tail.contains('/'),
    ensures
        pieces_at(head + seq!['/'] + tail, '/').last() == tail,
    decreases tail.len(),
{
    let s = head + seq!['/'] + tail;
    if tail.len() == 0 {
        assert(s =~= head.push('/'));
        assert(s.last() == '/');
        assert(tail =~= Seq::<char>::empty());
    } else {
        let front = tail.drop_last();
        assert forall|i: int| 0 <= i < front.len() implies front[i] != '/' by {
            assert(tail.contains(tail[i]));
        }
        last_piece(head, front);
        assert(s.drop_last() =~= head + seq!['/'] + front);
        assert(tail.contains(tail[tail.len() - 1]));
        assert(s.last() == tail.last());
        assert(front.push(tail.last()) =~= tail);
    }
}

/// The words by which codecs, pictures, directions and switches are asked for.
pub proof fn words_mean_what_they_say(w: &str, s: Option<bool>)
    requires
        call_ensures(read_switch, (w,), s),
    ensures
        codec_word(VideoCodec::H264) == "h264"@,
        codec_word(VideoCodec::H265) == "h265"@,
        aspect_word(CameraAspect::Crop) == "crop"@,
        aspect_word(CameraAspect::Letterbox) == "letterbox"@,
        aspect_word(CameraAspect::Stretch) == "stretch"@,
        direction_word(AudioDirection::HostToDevice) == "host-to-device"@,
        direction_word(AudioDirection::DeviceToHost) == "device-to-host"@,
        direction_word(AudioDirection::Both) == "both"@,
        s == Some(true) <==> w@ == "on"@ || w@ == "true"@,
        s == Some(false) <==> w@ == "off"@ || w@ == "false"@,
{
}

/// The line of a device has all that is known of it, each where its column is.
pub proof fn device_lines_tell_all(r: DeviceRow, s: String)
    requires
        call_ensures(device_line, (&r,), s),
        r.name is Some && r.state is Some && r.address is Some && r.battery is Some,
        r.capabilities is Some,
    ensures
        s@ == r.id@ + "  "@ + left_aligned(r.name->0@, 24) + "  state="@ + left_aligned(
            r.state->0@,
            14,
        ) + "  battery="@ + right_aligned(decimal(r.battery->0 as nat), 3) + "  addr="@
            + left_aligned(r.address->0@, 22) + "  caps=["@ + joined(
            texts(r.capabilities->0@),
            ","@,
        ) + "]"@,
{
}

/// What came of pairing is told.
pub proof fn outcomes_of_pairing_are_told(
    id: &str,
    name: &str,
    why: &str,
    ok: String,
    bad: String,
    done: String,
    found: String,
    addr: &str,
    key: &str,
)
    requires
        call_ensures(paired_line, (id, name), ok),
        call_ensures(pair_failure, (why,), bad),
        call_ensures(setup_summary, (name,), done),
        call_ensures(candidate_line, (name, addr, key), found),
    ensures
        ok@ == "paired: device_id="@ + id@ + " name="@ + name@,
        bad@ == "pair failed: "@ + why@,
        done@ == "Ansync paired with "@ + name@,
        found@ == left_aligned(name@, 24) + "  "@ + left_aligned(addr@, 22) + "  "@ + key@,
{
}

/// Lines are printed as they are told, and watching begins by asking for the PIN only
/// where the companion already waits for it.
pub proof fn lines_are_printed(
    g: ManagerSignal,
    line: String,
    device: &str,
    m: DeviceSignal,
    text: String,
    first: &str,
    w: (PairWatch, bool),
    none: (PairWatch, bool),
)
    requires
        call_ensures(manager_line, (&g,), line),
        call_ensures(device_signal_line, (device, &m), text),
        call_ensures(PairWatch::begin, (Some(first),), w),
        call_ensures(PairWatch::begin, (None::<&str>,), none),
    ensures
        line@ == manager_text(g),
        text@ == device_text(device@, m),
        w.1 <==> first@ == "awaiting_pin"@,
        w.0.pin_submitted <==> w.1,
        !none.1 && !none.0.pin_submitted,
{
}

} // verus!
