//! Identities, capabilities and permissions shared by every part.

use vstd::prelude::*;
use vstd::string::*;

use crate::hex_text::{byte_from_pair, hex_bytes, hex_chars, hex_encode, hex_round_trip, is_hex_of,
    pair_value};
use crate::text::{concat, texts};

verus! {

/// Stable device identity: the first sixteen bytes of the peer's public key.
#[derive(Clone, Copy, Debug, PartialEq, Eq, Hash)]
pub struct DeviceId(pub [u8; 16]);

impl View for DeviceId {
    type V = Seq<u8>;

    open spec fn view(&self) -> Seq<u8> {
        self.0@
    }
}

impl DeviceId {
    /// Thirty-two lower-case hexadecimal characters.
    pub fn hex(&self) -> (s: String)
        ensures
            s@ == hex_chars(self@),
    {
        hex_encode(self.0.as_slice())
    }

    /// The identity that belongs to a public key.
    pub fn of_pubkey(pubkey: &[u8; 32]) -> (id: DeviceId)
        ensures
            id@ == pubkey@.take(16),
    {
        let mut id: [u8; 16] = [0u8; 16];
        let mut i: usize = 0;
        while i < 16
            invariant
                i <= 16,
                forall|k: int| 0 <= k < i ==> #[trigger] id@[k] == pubkey@[k],
            decreases 16 - i,
        {
            id[i] = pubkey[i];
            i += 1;
        }
        assert(id@ =~= pubkey@.take(16));
        DeviceId(id)
    }

    /// Whether two identities are the same.
    pub fn same(&self, other: &DeviceId) -> (r: bool)
        ensures
            r == (self@ == other@),
    {
        let mut i: usize = 0;
        while i < 16
            invariant
                i <= 16,
                forall|k: int| 0 <= k < i ==> self@[k] == other@[k],
            decreases 16 - i,
        {
            if self.0[i] != other.0[i] {
                assert(self@[i as int] != other@[i as int]);
                return false;
            }
            i += 1;
        }
        assert(self@ =~= other@);
        true
    }
}

/// Parses a device id of thirty-two hexadecimal digits. Nothing but digits is one: a
/// sign is not.
pub fn parse_device_id(s: &str) -> (r: Option<DeviceId>)
    ensures
        r is Some <==> is_hex_of(s.spec_bytes(), 16),
        r is Some ==> r->0@ == hex_bytes(s.spec_bytes(), 16),
{
    let raw = s.as_bytes();
    if raw.len() != 32 {
        return None;
    }
    let mut out: [u8; 16] = [0u8; 16];
    let mut i: usize = 0;
    while i < 16
        invariant
            i <= 16,
            raw@ == s.spec_bytes(),
            raw@.len() == 32,
            forall|k: int|
                0 <= k < i ==> #[trigger] pair_value(raw@[2 * k], raw@[2 * k + 1]) is Some,
            forall|k: int| 0 <= k < i ==> #[trigger] out@[k] == hex_bytes(raw@, 16)[k],
        decreases 16 - i,
    {
        match byte_from_pair(raw[2 * i], raw[2 * i + 1]) {
            Some(b) => {
                out[i] = b;
            },
            None => {
                assert(pair_value(raw@[2 * i as int], raw@[2 * i as int + 1]) is None);
                return None;
            },
        }
        i += 1;
    }
    assert(out@ =~= hex_bytes(raw@, 16));
    Some(DeviceId(out))
}

/// The text form of a device id parses back to that id.
pub proof fn device_id_round_trip(id: DeviceId, text: &str)
    requires
        text@ == hex_chars(id@),
    ensures
        is_hex_of(text.spec_bytes(), 16),
        hex_bytes(text.spec_bytes(), 16) == id@,
{
    hex_round_trip(id@);
}

/// Human-readable name that a peer advertises.
#[derive(Debug, Clone, PartialEq, Eq)]
pub struct DeviceName(pub String);

// ---- capabilities -----------------------------------------------------------

pub const SCREEN_MIRROR: u32 = 0x1;

pub const CAMERA_VIDEO: u32 = 0x2;

pub const CAMERA_AUDIO: u32 = 0x4;

pub const MIC: u32 = 0x8;

pub const AUDIO_IN: u32 = 0x10;

pub const AUDIO_OUT: u32 = 0x20;

pub const FILES: u32 = 0x40;

pub const FILES_MOUNT: u32 = 0x80;

pub const CLIPBOARD: u32 = 0x100;

pub const INPUT_FROM_DEV: u32 = 0x200;

pub const INPUT_TO_DEV: u32 = 0x400;

pub const NOTIFICATIONS: u32 = 0x800;

pub const SENSORS: u32 = 0x1000;

pub const STYLUS: u32 = 0x2000;

pub const HEVC: u32 = 0x4000;

pub const SHARE: u32 = 0x8000;

/// A set of capabilities; one bit for each.
#[derive(Debug, Clone, Copy, PartialEq, Eq, Structural)]
pub struct Capabilities {
    pub bits: u32,
}

/// Whether every bit of `flag` is set in `bits`.
pub open spec fn has_flag(bits: u32, flag: u32) -> bool {
    bits & flag == flag
}

/// Whether every bit stands for a capability.
pub open spec fn all_flags(bits: u32) -> bool {
    bits < 0x1_0000
}

impl Capabilities {
    /// The set that these bits stand for; `None` if a bit is not a capability.
    pub fn from_bits(bits: u32) -> (r: Option<Capabilities>)
        ensures
            r == (if all_flags(bits) {
                Some(Capabilities { bits })
            } else {
                None::<Capabilities>
            }),
    {
        if bits < 0x1_0000 {
            Some(Capabilities { bits })
        } else {
            None
        }
    }

    pub fn empty() -> (r: Capabilities)
        ensures
            r.bits == 0,
    {
        Capabilities { bits: 0 }
    }

    /// Whether the capabilities of `flag` are all in the set.
    pub fn contains(&self, flag: u32) -> (r: bool)
        ensures
            r == has_flag(self.bits, flag),
    {
        self.bits & flag == flag
    }
}

/// The capabilities that have a public name, in the order they are listed.
pub open spec fn capability_table() -> Seq<(u32, Seq<char>)> {
    seq![
        (SCREEN_MIRROR, "screen_mirror"@),
        (CAMERA_VIDEO, "camera_video"@),
        (CAMERA_AUDIO, "camera_audio"@),
        (MIC, "mic"@),
        (AUDIO_IN, "audio_in"@),
        (AUDIO_OUT, "audio_out"@),
        (FILES, "files"@),
        (CLIPBOARD, "clipboard"@),
        (INPUT_FROM_DEV, "input_from_device"@),
        (INPUT_TO_DEV, "input_to_device"@),
        (NOTIFICATIONS, "notifications"@),
        (STYLUS, "stylus"@),
        (HEVC, "hevc"@),
        (SHARE, "share"@),
    ]
}

/// The names of the first `n` entries of the table that are in `bits`.
pub open spec fn names_up_to(bits: u32, n: int) -> Seq<Seq<char>>
    decreases n,
{
    if n <= 0 {
        seq![]
    } else {
        let (flag, name) = capability_table()[n - 1];
        if has_flag(bits, flag) {
            names_up_to(bits, n - 1).push(name)
        } else {
            names_up_to(bits, n - 1)
        }
    }
}

fn capability_entry(i: usize) -> (r: (u32, &'static str))
    requires
        i < 14,
    ensures
        (r.0, r.1@) == capability_table()[i as int],
        r.0 > 0,
{
    match i {
        0 => (SCREEN_MIRROR, "screen_mirror"),
        1 => (CAMERA_VIDEO, "camera_video"),
        2 => (CAMERA_AUDIO, "camera_audio"),
        3 => (MIC, "mic"),
        4 => (AUDIO_IN, "audio_in"),
        5 => (AUDIO_OUT, "audio_out"),
        6 => (FILES, "files"),
        7 => (CLIPBOARD, "clipboard"),
        8 => (INPUT_FROM_DEV, "input_from_device"),
        9 => (INPUT_TO_DEV, "input_to_device"),
        10 => (NOTIFICATIONS, "notifications"),
        11 => (STYLUS, "stylus"),
        12 => (HEVC, "hevc"),
        _ => (SHARE, "share"),
    }
}

/// The names of the capabilities in a set.
pub fn capability_names(caps: Capabilities) -> (names: Vec<String>)
    ensures
        texts(names@) == names_up_to(caps.bits, 14),
{
    let mut names: Vec<String> = Vec::new();
    let mut i: usize = 0;
    assert(texts(names@) =~= names_up_to(caps.bits, 0));
    while i < 14
        invariant
            i <= 14,
            texts(names@) == names_up_to(caps.bits, i as int),
        decreases 14 - i,
    {
        let (flag, name) = capability_entry(i);
        let ghost before = names@;
        if caps.contains(flag) {
            let text = name.to_owned();
            names.push(text);
            assert(texts(names@) =~= texts(before).push(name@));
        }
        i += 1;
    }
    names
}

// ---- permissions --------------------------------------------------------------

#[derive(Debug, Clone, Copy, PartialEq, Eq, Structural)]
pub enum ClipboardPolicy {
    Off,
    Prompt,
    Allow,
}

/// Permission keys used for error reporting and on the bus.
#[derive(Debug, Clone, Copy, PartialEq, Eq, Structural)]
pub enum Permission {
    ScreenMirror,
    CameraVideo,
    CameraAudio,
    Mic,
    AudioIn,
    AudioOut,
    FilesSend,
    FilesReceive,
    FilesMount,
    ClipboardIn,
    ClipboardOut,
    InputFromDevice,
    InputToDevice,
    Notifications,
    Sensors,
    ShareReceive,
}

/// What one device may do.
#[derive(Debug, Clone, Copy, PartialEq, Eq, Structural)]
pub struct DevicePermissions {
    pub screen_mirror: bool,
    pub camera_video: bool,
    pub camera_audio: bool,
    pub mic: bool,
    pub audio_in: bool,
    pub audio_out: bool,
    pub files_send: bool,
    pub files_receive: bool,
    pub files_mount: bool,
    pub clipboard_in: ClipboardPolicy,
    pub clipboard_out: ClipboardPolicy,
    pub input_from_device: bool,
    pub input_to_device: bool,
    pub notifications: bool,
    pub sensors: bool,
}

/// What a device may do before anything was decided about it: mirroring, files
/// and notifications are on, hardware is off, the clipboard asks.
pub open spec fn first_permissions() -> DevicePermissions {
    DevicePermissions {
        screen_mirror: true,
        camera_video: false,
        camera_audio: false,
        mic: false,
        audio_in: false,
        audio_out: false,
        files_send: true,
        files_receive: true,
        files_mount: false,
        clipboard_in: ClipboardPolicy::Prompt,
        clipboard_out: ClipboardPolicy::Prompt,
        input_from_device: false,
        input_to_device: false,
        notifications: true,
        sensors: false,
    }
}

impl Default for DevicePermissions {
    fn default() -> (r: Self)
        ensures
            r == first_permissions(),
    {
        DevicePermissions {
            screen_mirror: true,
            camera_video: false,
            camera_audio: false,
            mic: false,
            audio_in: false,
            audio_out: false,
            files_send: true,
            files_receive: true,
            files_mount: false,
            clipboard_in: ClipboardPolicy::Prompt,
            clipboard_out: ClipboardPolicy::Prompt,
            input_from_device: false,
            input_to_device: false,
            notifications: true,
            sensors: false,
        }
    }
}

/// The permissions in force: those on record, or the first ones for a device
/// that has no record.
pub fn permissions_or_first(stored: Option<DevicePermissions>) -> (r: DevicePermissions)
    ensures
        r == (match stored {
            Some(p) => p,
            None => first_permissions(),
        }),
{
    match stored {
        Some(p) => p,
        None => DevicePermissions::default(),
    }
}

// ---- errors -------------------------------------------------------------------------

impl Permission {
    pub open spec fn word(self) -> Seq<char> {
        match self {
            Permission::ScreenMirror => "ScreenMirror"@,
            Permission::CameraVideo => "CameraVideo"@,
            Permission::CameraAudio => "CameraAudio"@,
            Permission::Mic => "Mic"@,
            Permission::AudioIn => "AudioIn"@,
            Permission::AudioOut => "AudioOut"@,
            Permission::FilesSend => "FilesSend"@,
            Permission::FilesReceive => "FilesReceive"@,
            Permission::FilesMount => "FilesMount"@,
            Permission::ClipboardIn => "ClipboardIn"@,
            Permission::ClipboardOut => "ClipboardOut"@,
            Permission::InputFromDevice => "InputFromDevice"@,
            Permission::InputToDevice => "InputToDevice"@,
            Permission::Notifications => "Notifications"@,
            Permission::Sensors => "Sensors"@,
            Permission::ShareReceive => "ShareReceive"@,
        }
    }

    /// The permission by name, for messages.
    pub fn name(self) -> (s: &'static str)
        ensures
            s@ == self.word(),
    {
        match self {
            Permission::ScreenMirror => "ScreenMirror",
            Permission::CameraVideo => "CameraVideo",
            Permission::CameraAudio => "CameraAudio",
            Permission::Mic => "Mic",
            Permission::AudioIn => "AudioIn",
            Permission::AudioOut => "AudioOut",
            Permission::FilesSend => "FilesSend",
            Permission::FilesReceive => "FilesReceive",
            Permission::FilesMount => "FilesMount",
            Permission::ClipboardIn => "ClipboardIn",
            Permission::ClipboardOut => "ClipboardOut",
            Permission::InputFromDevice => "InputFromDevice",
            Permission::InputToDevice => "InputToDevice",
            Permission::Notifications => "Notifications",
            Permission::Sensors => "Sensors",
            Permission::ShareReceive => "ShareReceive",
        }
    }
}

/// What can go wrong everywhere.
#[derive(Debug)]
pub enum Error {
    PermissionDenied(Permission),
    DeviceNotFound(DeviceId),
    NotPaired(DeviceId),
    Transport(String),
    Protocol(String),
    Crypto(String),
    BackendUnavailable(String),
    Io(String),
}

impl Error {
    pub open spec fn text(self) -> Seq<char> {
        match self {
            Error::PermissionDenied(p) => "permission denied: "@ + p.word(),
            Error::DeviceNotFound(id) => "device not found: "@ + hex_chars(id@),
            Error::NotPaired(id) => "not paired with "@ + hex_chars(id@),
            Error::Transport(why) => "transport: "@ + why@,
            Error::Protocol(why) => "protocol: "@ + why@,
            Error::Crypto(why) => "crypto: "@ + why@,
            Error::BackendUnavailable(why) => "backend unavailable: "@ + why@,
            Error::Io(why) => "io: "@ + why@,
        }
    }

    /// The error in words.
    pub fn message(&self) -> (s: String)
        ensures
            s@ == self.text(),
    {
        match self {
            Error::PermissionDenied(p) => concat("permission denied: ", p.name()),
            Error::DeviceNotFound(id) => concat("device not found: ", id.hex().as_str()),
            Error::NotPaired(id) => concat("not paired with ", id.hex().as_str()),
            Error::Transport(why) => concat("transport: ", why.as_str()),
            Error::Protocol(why) => concat("protocol: ", why.as_str()),
            Error::Crypto(why) => concat("crypto: ", why.as_str()),
            Error::BackendUnavailable(why) => concat("backend unavailable: ", why.as_str()),
            Error::Io(why) => concat("io: ", why.as_str()),
        }
    }
}

// ---- what is allowed, and what is offered ------------------------------------------------------

/// A peer that was just paired may show its screen, send and get files and notify; it
/// is asked about the clipboard, and nothing else is allowed before the user says so.
pub proof fn little_is_allowed_at_first(stored: Option<DevicePermissions>, r: DevicePermissions)
    requires
        call_ensures(permissions_or_first, (stored,), r),
    ensures
        stored matches Some(p) ==> r == p,
        stored is None ==> {
            &&& r.screen_mirror && r.files_send && r.files_receive && r.notifications
            &&& !r.camera_video && !r.camera_audio && !r.mic && !r.audio_in && !r.audio_out
            &&& !r.files_mount && !r.input_from_device && !r.input_to_device && !r.sensors
            &&& r.clipboard_in is Prompt && r.clipboard_out is Prompt
        },
{
}

/// An identity is the first half of a public key.
pub proof fn identities_come_from_keys(key: [u8; 32], id: DeviceId, i: int)
    requires
        call_ensures(DeviceId::of_pubkey, (&key,), id),
        0 <= i < 16,
    ensures
        id@.len() == 16,
        id@[i] == key@[i],
{
}

/// Two identities are the same where every byte of them is.
pub proof fn identities_are_told_apart(a: DeviceId, b: DeviceId, r: bool)
    requires
        call_ensures(DeviceId::same, (&a, &b), r),
    ensures
        r <==> forall|i: int| 0 <= i < 16 ==> #[trigger] a@[i] == b@[i],
{
    assert(a@.len() == 16 && b@.len() == 16);
    if forall|i: int| 0 <= i < 16 ==> #[trigger] a@[i] == b@[i] {
        assert(a@ =~= b@);
    }
}

/// Sixteen flags are known, and bits beyond them are refused.
pub proof fn only_known_flags_are_taken(bits: u32, r: Option<Capabilities>)
    requires
        call_ensures(Capabilities::from_bits, (bits,), r),
    ensures
        r is Some <==> bits <= 0xffff,
        r matches Some(c) ==> c.bits == bits,
{
}

proof fn flagged_is_named(bits: u32, n: int, i: int)
    requires
        0 <= i < n <= 14,
        has_flag(bits, capability_table()[i].0),
    ensures
        names_up_to(bits, n).contains(capability_table()[i].1),
    decreases n,
{
    let s = names_up_to(bits, n);
    if i == n - 1 {
        assert(s[s.len() - 1] == capability_table()[i].1);
    } else {
        flagged_is_named(bits, n - 1, i);
        let t = names_up_to(bits, n - 1);
        let k = choose|k: int| 0 <= k < t.len() && t[k] == capability_table()[i].1;
        assert(s[k] == t[k]);
    }
}

proof fn named_is_flagged(bits: u32, n: int, k: int) -> (i: int)
    requires
        0 <= n <= 14,
        0 <= k < names_up_to(bits, n).len(),
    ensures
        0 <= i < n,
        has_flag(bits, capability_table()[i].0),
        names_up_to(bits, n)[k] == capability_table()[i].1,
    decreases n,
{
    if k < names_up_to(bits, n - 1).len() {
        named_is_flagged(bits, n - 1, k)
    } else {
        n - 1
    }
}

/// What a device can do is told by name: each name stands for its own flag.
pub proof fn abilities_are_told_by_name(bits: u32, k: int)
    ensures
        bits & 0x1 == 0x1 ==> names_up_to(bits, 14).contains("screen_mirror"@),
        bits & 0x2 == 0x2 ==> names_up_to(bits, 14).contains("camera_video"@),
        bits & 0x4 == 0x4 ==> names_up_to(bits, 14).contains("camera_audio"@),
        bits & 0x8 == 0x8 ==> names_up_to(bits, 14).contains("mic"@),
        bits & 0x10 == 0x10 ==> names_up_to(bits, 14).contains("audio_in"@),
        bits & 0x20 == 0x20 ==> names_up_to(bits, 14).contains("audio_out"@),
        bits & 0x40 == 0x40 ==> names_up_to(bits, 14).contains("files"@),
        bits & 0x100 == 0x100 ==> names_up_to(bits, 14).contains("clipboard"@),
        bits & 0x200 == 0x200 ==> names_up_to(bits, 14).contains("input_from_device"@),
        bits & 0x400 == 0x400 ==> names_up_to(bits, 14).contains("input_to_device"@),
        bits & 0x800 == 0x800 ==> names_up_to(bits, 14).contains("notifications"@),
        bits & 0x2000 == 0x2000 ==> names_up_to(bits, 14).contains("stylus"@),
        bits & 0x4000 == 0x4000 ==> names_up_to(bits, 14).contains("hevc"@),
        bits & 0x8000 == 0x8000 ==> names_up_to(bits, 14).contains("share"@),
        0 <= k < names_up_to(bits, 14).len() ==> exists|i: int|
            0 <= i < 14 && bits & capability_table()[i].0 == capability_table()[i].0
                && names_up_to(bits, 14)[k] == (#[trigger] capability_table()[i]).1,
{
    let t = capability_table();
    assert forall|i: int| 0 <= i < 14 && has_flag(bits, (#[trigger] t[i]).0) implies names_up_to(
        bits,
        14,
    ).contains(t[i].1) by {
        flagged_is_named(bits, 14, i);
    }
    assert(t[0] == (0x1u32, "screen_mirror"@));
    assert(t[1] == (0x2u32, "camera_video"@));
    assert(t[2] == (0x4u32, "camera_audio"@));
    assert(t[3] == (0x8u32, "mic"@));
    assert(t[4] == (0x10u32, "audio_in"@));
    assert(t[5] == (0x20u32, "audio_out"@));
    assert(t[6] == (0x40u32, "files"@));
    assert(t[7] == (0x100u32, "clipboard"@));
    assert(t[8] == (0x200u32, "input_from_device"@));
    assert(t[9] == (0x400u32, "input_to_device"@));
    assert(t[10] == (0x800u32, "notifications"@));
    assert(t[11] == (0x2000u32, "stylus"@));
    assert(t[12] == (0x4000u32, "hevc"@));
    assert(t[13] == (0x8000u32, "share"@));
    if 0 <= k < names_up_to(bits, 14).len() {
        let i = named_is_flagged(bits, 14, k);
        assert(t[i].1 == names_up_to(bits, 14)[k]);
    }
}

/// An identity that was written out is read back.
pub proof fn written_identities_are_read(id: DeviceId, s: String, text: &str, r: Option<DeviceId>)
    requires
        call_ensures(DeviceId::hex, (&id,), s),
        text@ == s@,
        call_ensures(parse_device_id, (text,), r),
    ensures
        r matches Some(d) && d@ == id@,
{
    device_id_round_trip(id, text);
}

/// What a device can do is asked by its flags, and told by their names; nothing can do
/// nothing.
pub proof fn abilities_are_asked_by_flag(
    c: Capabilities,
    flag: u32,
    has: bool,
    names: Vec<String>,
    none: Capabilities,
)
    requires
        call_ensures(Capabilities::contains, (&c, flag), has),
        call_ensures(capability_names, (c,), names),
        call_ensures(Capabilities::empty, (), none),
    ensures
        has <==> c.bits & flag == flag,
        texts(names@) == names_up_to(c.bits, 14),
        none.bits == 0,
{
}

} // verus!
