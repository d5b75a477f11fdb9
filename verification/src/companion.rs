//! The companion on the Android side: its one connection to the host, the streams
//! on it, and what it hands to and takes from the app.

use vstd::prelude::*;
use vstd::string::*;

use crate::core_types::{
    Capabilities, DeviceId, AUDIO_IN, AUDIO_OUT, CAMERA_VIDEO, CLIPBOARD, FILES, MIC, NOTIFICATIONS,
    SCREEN_MIRROR, SHARE,
};
use crate::files::{join_path, joined_path};
use crate::hex_text::{hex_decode_32, is_numbers_of, number_bytes};
use crate::peer::StreamKind;
use crate::text::{concat, decimal, decimal_string};
use crate::wire::AudioDirection;

verus! {

// ---- what the app sets ----------------------------------------------------------------------

/// The directory for received files that every app can see.
pub open spec fn public_downloads() -> Seq<char> {
    "/storage/emulated/0/Download/ansync"@
}

/// Where received files go: where every app can see them if that directory can be
/// made, else into the app's own.
pub fn resolve_download_root(files_dir: &str, public_made: bool) -> (s: String)
    ensures
        s@ == if public_made {
            public_downloads()
        } else {
            joined_path(files_dir@, "incoming"@)
        },
{
    if public_made {
        "/storage/emulated/0/Download/ansync".to_owned()
    } else {
        join_path(files_dir, "incoming")
    }
}

/// A stream of the companion that is opened when something is first sent on it.
#[derive(Debug, Clone, Copy, PartialEq, Eq, Structural)]
pub enum Outbound {
    Input,
    Camera,
    Audio,
}

/// The connection to the host, and which of its streams are open.
#[derive(Debug, Clone, Copy, PartialEq, Eq)]
pub struct CompanionSession {
    pub conn: u64,
    pub host_id: DeviceId,
    pub input_open: bool,
    pub camera_open: bool,
    pub audio_open: bool,
}

impl CompanionSession {
    pub open spec fn is_open(self, s: Outbound) -> bool {
        match s {
            Outbound::Input => self.input_open,
            Outbound::Camera => self.camera_open,
            Outbound::Audio => self.audio_open,
        }
    }

    pub open spec fn with_stream(self, s: Outbound, open: bool) -> Self {
        match s {
            Outbound::Input => CompanionSession { input_open: open, ..self },
            Outbound::Camera => CompanionSession { camera_open: open, ..self },
            Outbound::Audio => CompanionSession { audio_open: open, ..self },
        }
    }
}

/// What the companion remembers while it runs.
#[derive(Debug)]
pub struct Companion {
    pub download_dir: String,
    pub device_name: Option<String>,
    /// What the host said that it is called.
    pub host_name: Option<String>,
    pub session: Option<CompanionSession>,
    /// Whether the host can be reached through the connection.
    pub connected: bool,
    /// Messages of input that were sent.
    pub input_sent: u64,
}

// ---- opening a connection ---------------------------------------------------------------------

/// Why no connection is opened.
#[derive(Debug, Clone, Copy, PartialEq, Eq, Structural)]
pub enum OpenError {
    PortOutOfRange,
    BadPubkey,
    NotInitialised,
    /// The name of the host has no address.
    NoAddress,
    DialFailed,
    VideoFailed,
}

/// Whom to dial.
#[derive(Debug)]
pub struct Dial {
    pub address: String,
    pub expected: [u8; 32],
}

pub open spec fn address_text(host: Seq<char>, port: int) -> Seq<char> {
    host + ":"@ + decimal(port as nat)
}

/// Whom to dial, if what was asked for makes sense: a port, and the key of the host
/// as 64 hexadecimal digits.
pub fn plan_dial(companion: Option<&Companion>, host: &str, port: i32, pubkey_hex: &str) -> (r: Result<
    Dial,
    OpenError,
>)
    ensures
        match r {
            Ok(d) => 0 <= port < 0x1_0000 && is_numbers_of(pubkey_hex.spec_bytes(), 32) && companion
                is Some && d.address@ == address_text(host@, port as int) && d.expected@
                == number_bytes(pubkey_hex.spec_bytes(), 32),
            Err(OpenError::PortOutOfRange) => !(0 <= port < 0x1_0000),
            Err(OpenError::BadPubkey) => 0 <= port < 0x1_0000 && !is_numbers_of(
                pubkey_hex.spec_bytes(),
                32,
            ),
            Err(OpenError::NotInitialised) => 0 <= port < 0x1_0000 && is_numbers_of(
                pubkey_hex.spec_bytes(),
                32,
            ) && companion is None,
            Err(_) => false,
        },
{
    if port < 0 || port >= 0x1_0000 {
        return Err(OpenError::PortOutOfRange);
    }
    let expected = match hex_decode_32(pubkey_hex) {
        Some(k) => k,
        None => return Err(OpenError::BadPubkey),
    };
    if companion.is_none() {
        return Err(OpenError::NotInitialised);
    }
    let mut address = concat(host, ":");
    address.append(decimal_string(port as u64).as_str());
    Ok(Dial { address, expected })
}

/// What happened on the way to a connection.
#[derive(Debug)]
pub enum OpenEvent {
    /// Whether the text is an address as it stands.
    Parsed(bool),
    /// How many addresses the name has; nothing where it could not be looked up.
    LookedUp(Option<usize>),
    Dialled(bool),
    Greeted(bool),
    VideoOpened(bool),
}

/// What to do next on that way.
#[derive(Debug, Clone, Copy, PartialEq, Eq, Structural)]
pub enum OpenNext {
    LookUp,
    Dial,
    Greet,
    OpenVideo,
    Finish,
    Fail(OpenError),
}

/// The order of things: an address, the connection, a greeting, whose failure does
/// no harm, and the video stream.
pub fn open_step(event: OpenEvent) -> (n: OpenNext)
    ensures
        n == match event {
            OpenEvent::Parsed(yes) => if yes {
                OpenNext::Dial
            } else {
                OpenNext::LookUp
            },
            OpenEvent::LookedUp(found) => if found is Some && found->0 > 0 {
                OpenNext::Dial
            } else {
                OpenNext::Fail(OpenError::NoAddress)
            },
            OpenEvent::Dialled(ok) => if ok {
                OpenNext::Greet
            } else {
                OpenNext::Fail(OpenError::DialFailed)
            },
            OpenEvent::Greeted(_) => OpenNext::OpenVideo,
            OpenEvent::VideoOpened(ok) => if ok {
                OpenNext::Finish
            } else {
                OpenNext::Fail(OpenError::VideoFailed)
            },
        },
{
    match event {
        OpenEvent::Parsed(yes) => if yes {
            OpenNext::Dial
        } else {
            OpenNext::LookUp
        },
        OpenEvent::LookedUp(found) => match found {
            Some(n) => if n > 0 {
                OpenNext::Dial
            } else {
                OpenNext::Fail(OpenError::NoAddress)
            },
            None => OpenNext::Fail(OpenError::NoAddress),
        },
        OpenEvent::Dialled(ok) => if ok {
            OpenNext::Greet
        } else {
            OpenNext::Fail(OpenError::DialFailed)
        },
        OpenEvent::Greeted(_) => OpenNext::OpenVideo,
        OpenEvent::VideoOpened(ok) => if ok {
            OpenNext::Finish
        } else {
            OpenNext::Fail(OpenError::VideoFailed)
        },
    }
}

/// What the companion can do for the host.
pub fn companion_capabilities() -> (c: Capabilities)
    ensures
        c.bits == SCREEN_MIRROR + CAMERA_VIDEO + AUDIO_IN + AUDIO_OUT + MIC + FILES + CLIPBOARD
            + NOTIFICATIONS + SHARE,
{
    Capabilities {
        bits: SCREEN_MIRROR + CAMERA_VIDEO + AUDIO_IN + AUDIO_OUT + MIC + FILES + CLIPBOARD
            + NOTIFICATIONS + SHARE,
    }
}

/// What a stream that the host opened is for.
#[derive(Debug, Clone, Copy, PartialEq, Eq, Structural)]
pub enum InboundTask {
    Input,
    File,
    Control,
    Audio,
    Clipboard,
    Hello,
    Url,
    /// Nothing that the companion takes.
    Refuse,
}

/// What to do with a stream that the host opened.
pub fn inbound_task(kind: StreamKind) -> (t: InboundTask)
    ensures
        t == match kind {
            StreamKind::Input => InboundTask::Input,
            StreamKind::Files => InboundTask::File,
            StreamKind::Control => InboundTask::Control,
            StreamKind::Audio => InboundTask::Audio,
            StreamKind::Clipboard => InboundTask::Clipboard,
            StreamKind::Hello => InboundTask::Hello,
            StreamKind::Url => InboundTask::Url,
            _ => InboundTask::Refuse,
        },
{
    match kind {
        StreamKind::Input => InboundTask::Input,
        StreamKind::Files => InboundTask::File,
        StreamKind::Control => InboundTask::Control,
        StreamKind::Audio => InboundTask::Audio,
        StreamKind::Clipboard => InboundTask::Clipboard,
        StreamKind::Hello => InboundTask::Hello,
        StreamKind::Url => InboundTask::Url,
        _ => InboundTask::Refuse,
    }
}

/// What came of reading a frame from a stream and handing it on.
#[derive(Debug, Clone, Copy, PartialEq, Eq, Structural)]
pub enum FrameOutcome {
    /// The stream ended or broke.
    NoFrame,
    /// The frame means nothing.
    Malformed,
    Delivered,
    /// Nobody takes frames any more.
    NoReceiver,
}

/// Whether a loop over the frames of a stream goes on. A frame that means nothing
/// does not end it.
pub fn frames_go_on(outcome: FrameOutcome) -> (r: bool)
    ensures
        r == (outcome is Malformed || outcome is Delivered),
{
    match outcome {
        FrameOutcome::NoFrame => false,
        FrameOutcome::Malformed => true,
        FrameOutcome::Delivered => true,
        FrameOutcome::NoReceiver => false,
    }
}

/// The header of the sound that the companion sends.
#[derive(Debug, Clone, Copy, PartialEq, Eq, Structural)]
pub struct SoundHeader {
    pub sample_rate: u32,
    pub channels: u8,
    pub direction: AudioDirection,
}

pub fn sound_header() -> (h: SoundHeader)
    ensures
        h == (SoundHeader {
            sample_rate: 48000,
            channels: 2,
            direction: AudioDirection::DeviceToHost,
        }),
{
    SoundHeader { sample_rate: 48000, channels: 2, direction: AudioDirection::DeviceToHost }
}

/// What has to be done before something can be sent.
#[derive(Debug, Clone, Copy, PartialEq, Eq, Structural)]
pub enum SendPlan {
    NoSession,
    Ready,
    OpenFirst,
    /// Open the stream and send the header of the sound on it.
    OpenWithHeader,
}

impl Companion {
    /// A companion that was just started.
    pub fn new(download_dir: String) -> (c: Self)
        ensures
            c == (Companion {
                download_dir,
                device_name: None,
                host_name: None,
                session: None,
                connected: false,
                input_sent: 0,
            }),
    {
        Companion {
            download_dir,
            device_name: None,
            host_name: None,
            session: None,
            connected: false,
            input_sent: 0,
        }
    }

    pub fn set_device_name(&mut self, name: String)
        ensures
            *final(self) == (Companion { device_name: Some(name), ..*old(self) }),
    {
        self.device_name = Some(name);
    }

    /// The name that the host is told.
    pub fn greeting_name(&self) -> (s: String)
        ensures
            s@ == match self.device_name {
                Some(n) => n@,
                None => "android"@,
            },
    {
        match &self.device_name {
            Some(n) => n.as_str().to_owned(),
            None => "android".to_owned(),
        }
    }

    /// The name that is shown while the companion waits to be paired.
    pub fn pairing_name(&self) -> (s: String)
        ensures
            s@ == match self.device_name {
                Some(n) => n@,
                None => "ansync companion"@,
            },
    {
        match &self.device_name {
            Some(n) => n.as_str().to_owned(),
            None => "ansync companion".to_owned(),
        }
    }

    /// A connection is up. It takes the place of the one before.
    pub fn opened(&mut self, conn: u64, expected: &[u8; 32])
        ensures
            final(self).connected,
            final(self).session matches Some(s) && s.conn == conn && s.host_id@
                == expected@.take(16) && !s.input_open && !s.camera_open && !s.audio_open,
            final(self).download_dir == old(self).download_dir,
            final(self).device_name == old(self).device_name,
            final(self).host_name == old(self).host_name,
            final(self).input_sent == old(self).input_sent,
    {
        self.session = Some(
            CompanionSession {
                conn,
                host_id: DeviceId::of_pubkey(expected),
                input_open: false,
                camera_open: false,
                audio_open: false,
            },
        );
        self.connected = true;
    }

    /// No stream of the host can be accepted any more, for whatever reason.
    pub fn accept_ended(&mut self)
        ensures
            *final(self) == (Companion { connected: false, ..*old(self) }),
    {
        self.connected = false;
    }

    /// The app gives the connection up. Whether there was one.
    pub fn close(&mut self) -> (was: bool)
        ensures
            *final(self) == (Companion { session: None, ..*old(self) }),
            was == old(self).session is Some,
    {
        let was = self.session.is_some();
        self.session = None;
        was
    }

    /// The host said what it is called.
    pub fn host_greeted(&mut self, name: String)
        ensures
            *final(self) == (Companion { host_name: Some(name), ..*old(self) }),
    {
        self.host_name = Some(name);
    }

    /// What has to be done before something can be sent on a stream.
    pub fn plan_send(&self, stream: Outbound) -> (p: SendPlan)
        ensures
            p == match self.session {
                None => SendPlan::NoSession,
                Some(s) => if s.is_open(stream) {
                    SendPlan::Ready
                } else if stream == Outbound::Audio {
                    SendPlan::OpenWithHeader
                } else {
                    SendPlan::OpenFirst
                },
            },
    {
        match &self.session {
            None => SendPlan::NoSession,
            Some(s) => {
                let open = match stream {
                    Outbound::Input => s.input_open,
                    Outbound::Camera => s.camera_open,
                    Outbound::Audio => s.audio_open,
                };
                if open {
                    SendPlan::Ready
                } else {
                    match stream {
                        Outbound::Audio => SendPlan::OpenWithHeader,
                        _ => SendPlan::OpenFirst,
                    }
                }
            },
        }
    }

    fn set_stream(&mut self, stream: Outbound, open: bool)
        ensures
            *final(self) == (Companion {
                session: match old(self).session {
                    Some(s) => Some(s.with_stream(stream, open)),
                    None => None,
                },
                ..*old(self)
            }),
    {
        if let Some(s) = self.session {
            let mut s = s;
            match stream {
                Outbound::Input => {
                    s.input_open = open;
                },
                Outbound::Camera => {
                    s.camera_open = open;
                },
                Outbound::Audio => {
                    s.audio_open = open;
                },
            }
            self.session = Some(s);
        }
    }

    /// A stream was opened, header and all.
    pub fn stream_opened(&mut self, stream: Outbound)
        ensures
            *final(self) == (Companion {
                session: match old(self).session {
                    Some(s) => Some(s.with_stream(stream, true)),
                    None => None,
                },
                ..*old(self)
            }),
    {
        self.set_stream(stream, true);
    }

    /// The app stops a stream. Whether there is a connection it could be on.
    pub fn stop_stream(&mut self, stream: Outbound) -> (r: bool)
        ensures
            r == old(self).session is Some,
            *final(self) == (Companion {
                session: match old(self).session {
                    Some(s) => Some(s.with_stream(stream, false)),
                    None => None,
                },
                ..*old(self)
            }),
    {
        let r = self.session.is_some();
        self.set_stream(stream, false);
        r
    }

    /// A message of input was sent, or was not. The count begins anew once it is
    /// full.
    pub fn input_done(&mut self, ok: bool)
        ensures
            *final(self) == (Companion {
                input_sent: if !ok {
                    old(self).input_sent
                } else if old(self).input_sent == u64::MAX {
                    0
                } else {
                    (old(self).input_sent + 1) as u64
                },
                ..*old(self)
            }),
    {
        if ok {
            self.input_sent = if self.input_sent == u64::MAX {
                0
            } else {
                self.input_sent + 1
            };
        }
    }
}

/// A stream that was stopped is opened anew before anything is sent on it, and one
/// that was opened is not opened again.
pub proof fn streams_open_once(s: CompanionSession, stream: Outbound, other: Outbound)
    ensures
        s.with_stream(stream, true).is_open(stream),
        !s.with_stream(stream, false).is_open(stream),
        other != stream ==> s.with_stream(stream, true).is_open(other) == s.is_open(other),
        other != stream ==> s.with_stream(stream, false).is_open(other) == s.is_open(other),
{
}

// ---- the listener for pairing ------------------------------------------------------------------

/// The port on which the companion waits to be paired.
#[derive(Debug, Clone, Copy, PartialEq, Eq, Structural)]
pub struct PairPort {
    pub port: Option<u16>,
}

/// What to do when the app wants the companion to be paired.
#[derive(Debug, Clone, Copy, PartialEq, Eq, Structural)]
pub enum ListenPlan {
    /// It waits already.
    Already(u16),
    Bind,
    /// The companion was not started.
    Refuse,
}

impl PairPort {
    /// Whether a port has to be bound. One is enough.
    pub fn plan(&self, initialised: bool) -> (p: ListenPlan)
        ensures
            p == match self.port {
                Some(n) => ListenPlan::Already(n),
                None => if initialised {
                    ListenPlan::Bind
                } else {
                    ListenPlan::Refuse
                },
            },
    {
        match self.port {
            Some(n) => ListenPlan::Already(n),
            None => if initialised {
                ListenPlan::Bind
            } else {
                ListenPlan::Refuse
            },
        }
    }

    /// A port was bound, or was not. What the app is told: the port, or a negative
    /// number.
    pub fn bound(&mut self, port: Option<u16>) -> (told: i64)
        ensures
            match port {
                Some(n) => final(self).port == Some(n) && told == n,
                None => *final(self) == *old(self) && told == -1,
            },
    {
        match port {
            Some(n) => {
                self.port = Some(n);
                n as i64
            },
            None => -1,
        }
    }

    /// The companion is not to be paired any more. Whether it waited.
    pub fn stop(&mut self) -> (was: bool)
        ensures
            final(self).port is None,
            was == old(self).port is Some,
    {
        let was = self.port.is_some();
        self.port = None;
        was
    }
}

// ---- sending files -----------------------------------------------------------------------------

/// Whether a batch of files went well: every one of them.
pub open spec fn all_sent(results: Seq<bool>) -> bool {
    forall|i: int| 0 <= i < results.len() ==> results[i]
}

/// What the app is told of a batch. `results` says of each file that could be read
/// whether it was sent; a batch of none did not go well.
pub fn batch_went_well(has_session: bool, results: &Vec<bool>) -> (r: bool)
    ensures
        r == (has_session && results@.len() > 0 && all_sent(results@)),
{
    if !has_session || results.len() == 0 {
        return false;
    }
    let mut i: usize = 0;
    while i < results.len()
        invariant
            i <= results.len(),
            forall|k: int| 0 <= k < i ==> results@[k],
        decreases results.len() - i,
    {
        if !results[i] {
            return false;
        }
        i += 1;
    }
    true
}

// ---- what the companion is for ---------------------------------------------------------------------

/// A host is dialled at its address with the key that it must have; a port or a key that
/// is none is refused, and so is dialling before the app set things up.
pub proof fn hosts_are_dialled_with_their_key(
    c: Option<&Companion>,
    host: &str,
    port: i32,
    hex: &str,
    r: Result<Dial, OpenError>,
    key: Seq<u8>,
)
    requires
        call_ensures(plan_dial, (c, host, port, hex), r),
        key.len() == 32,
        hex@ == crate::hex_text::hex_chars(key),
    ensures
        r is Ok <==> 0 <= port <= 65535 && c is Some,
        r matches Ok(d) ==> d.expected@ == key && d.address@ == host@ + ":"@ + decimal(port as nat),
{
    crate::hex_text::hex_round_trip(key);
    assert(hex.spec_bytes() == vstd::utf8::encode_utf8(hex@));
}

/// Opening goes from the address to the dialled connection, the greeting and the video,
/// and fails where one of these does; a greeting that fails does not matter.
pub proof fn opening_goes_step_by_step(e: OpenEvent, n: OpenNext)
    requires
        call_ensures(open_step, (e,), n),
    ensures
        e == OpenEvent::Parsed(true) ==> n is Dial,
        e == OpenEvent::Parsed(false) ==> n is LookUp,
        e matches OpenEvent::LookedUp(Some(k)) ==> (k > 0 ==> n is Dial),
        e == OpenEvent::LookedUp(None) || e == OpenEvent::LookedUp(Some(0)) ==> n
            == OpenNext::Fail(OpenError::NoAddress),
        e == OpenEvent::Dialled(true) ==> n is Greet,
        e == OpenEvent::Dialled(false) ==> n == OpenNext::Fail(OpenError::DialFailed),
        e is Greeted ==> n is OpenVideo,
        e == OpenEvent::VideoOpened(true) ==> n is Finish,
        e == OpenEvent::VideoOpened(false) ==> n == OpenNext::Fail(OpenError::VideoFailed),
{
}

/// Each stream from the host goes to the part that can take it, and what the companion
/// cannot take is refused.
pub proof fn streams_go_to_their_part(kind: StreamKind, t: InboundTask)
    requires
        call_ensures(inbound_task, (kind,), t),
    ensures
        kind is Input <==> t is Input,
        kind is Files <==> t is File,
        kind is Control <==> t is Control,
        kind is Audio <==> t is Audio,
        kind is Clipboard <==> t is Clipboard,
        kind is Hello <==> t is Hello,
        kind is Url <==> t is Url,
{
}

/// The companion offers its screen, camera, sound both ways, microphone, files,
/// clipboard, notifications and shares; its sound is stereo at 48000 samples a second.
pub proof fn companion_offers_what_it_can_do(c: Capabilities, h: SoundHeader)
    requires
        call_ensures(companion_capabilities, (), c),
        call_ensures(sound_header, (), h),
    ensures
        c.bits == 0x1 + 0x2 + 0x10 + 0x20 + 0x8 + 0x40 + 0x100 + 0x800 + 0x8000,
        h.sample_rate == 48000 && h.channels == 2 && h.direction == AudioDirection::DeviceToHost,
{
}

/// A stream is opened before anything is sent on it, once, and sound is announced first;
/// without a connection nothing is sent.
pub proof fn streams_are_opened_before_sending()
    ensures
        forall|c: Companion, s: Outbound, p: SendPlan|
            #[trigger] call_ensures(Companion::plan_send, (&c, s), p) ==> {
                &&& p is NoSession <==> c.session is None
                &&& c.session matches Some(t) ==> (t.is_open(s) <==> p is Ready)
                &&& p is OpenWithHeader ==> s == Outbound::Audio
                &&& p is OpenFirst ==> s != Outbound::Audio
            },
        forall|c: &mut Companion, s: Outbound, p: SendPlan|
            #![trigger call_ensures(Companion::stream_opened, (c, s), ()), call_ensures(
                Companion::plan_send,
                (final(c), s),
                p,
            )]
            call_ensures(Companion::stream_opened, (c, s), ()) && c.session is Some && call_ensures(
                Companion::plan_send,
                (final(c), s),
                p,
            ) ==> p is Ready,
        forall|c: &mut Companion, s: Outbound, was: bool, p: SendPlan|
            #![trigger call_ensures(Companion::stop_stream, (c, s), was), call_ensures(
                Companion::plan_send,
                (final(c), s),
                p,
            )]
            call_ensures(Companion::stop_stream, (c, s), was) && call_ensures(
                Companion::plan_send,
                (final(c), s),
                p,
            ) ==> !(p is Ready) && (was <==> c.session is Some),
{
}

/// A connection that was opened is the one that is used, with no stream on it yet; a
/// connection that was closed is gone.
pub proof fn connections_are_opened_and_closed()
    ensures
        forall|c: &mut Companion, conn: u64, key: [u8; 32]|
            #[trigger] call_ensures(Companion::opened, (c, conn, &key), ()) ==> {
                &&& final(c).connected
                &&& final(c).session matches Some(s) && s.conn == conn && s.host_id@
                    == key@.take(16) && !s.input_open && !s.camera_open && !s.audio_open
            },
        forall|c: &mut Companion, was: bool|
            #[trigger] call_ensures(Companion::close, (c,), was) ==> final(c).session is None && (was
                <==> c.session is Some),
        forall|c: &mut Companion|
            #[trigger] call_ensures(Companion::accept_ended, (c,), ()) ==> !final(c).connected
                && final(c).session == c.session,
        forall|c: &mut Companion, ok: bool|
            #[trigger] call_ensures(Companion::input_done, (c, ok), ()) && c.input_sent < u64::MAX
                ==> final(c).input_sent == c.input_sent + (if ok { 1int } else { 0 }),
        forall|c: Companion, s: String|
            #[trigger] call_ensures(Companion::greeting_name, (&c,), s) ==> (
            c.device_name matches Some(n) ==> s@ == n@),
        forall|c: &mut Companion, name: String|
            #[trigger] call_ensures(Companion::set_device_name, (c, name), ())
                ==> final(c).device_name == Some(name) && final(c).session == c.session,
        forall|c: &mut Companion, name: String|
            #[trigger] call_ensures(Companion::host_greeted, (c, name), ()) ==> final(c).host_name
                == Some(name) && final(c).session == c.session,
{
}

/// The listener for pairing has one port, which is told again to whoever asks, until it
/// is stopped.
pub proof fn pairing_has_one_port()
    ensures
        forall|p: &mut PairPort, n: u16, told: i64, init: bool, plan: ListenPlan|
            #![trigger call_ensures(PairPort::bound, (p, Some(n)), told), call_ensures(
                PairPort::plan,
                (final(p), init),
                plan,
            )]
            call_ensures(PairPort::bound, (p, Some(n)), told) && call_ensures(
                PairPort::plan,
                (final(p), init),
                plan,
            ) ==> told == n && plan == ListenPlan::Already(n),
        forall|p: &mut PairPort, was: bool, init: bool, plan: ListenPlan|
            #![trigger call_ensures(PairPort::stop, (p,), was), call_ensures(
                PairPort::plan,
                (final(p), init),
                plan,
            )]
            call_ensures(PairPort::stop, (p,), was) && call_ensures(
                PairPort::plan,
                (final(p), init),
                plan,
            ) ==> (was <==> p.port is Some) && (plan is Bind <==> init) && (plan is Refuse
                <==> !init),
        forall|p: &mut PairPort, told: i64|
            #[trigger] call_ensures(PairPort::bound, (p, None::<u16>), told) ==> told < 0
                && *final(p) == *p,
{
}

/// A batch went well where there was a host and every file of it arrived.
pub proof fn batches_go_well_together(session: bool, results: Vec<bool>, r: bool, i: int)
    requires
        call_ensures(batch_went_well, (session, &results), r),
        0 <= i < results@.len(),
    ensures
        r ==> session && results@[i],
        session && (forall|k: int| 0 <= k < results@.len() ==> results@[k]) ==> r,
{
}

/// Files go to the public directory where it could be made, and else to the app's own.
pub proof fn files_go_to_the_public_directory(dir: &str, public: bool, s: String)
    requires
        call_ensures(resolve_download_root, (dir, public), s),
    ensures
        public ==> s@ == "/storage/emulated/0/Download/ansync"@,
        !public ==> s@ == joined_path(dir@, "incoming"@),
{
}

/// Frames go on being taken after one that could not be read, and end with the stream or
/// with whoever took them.
pub proof fn frames_survive_a_bad_one(o: FrameOutcome, r: bool)
    requires
        call_ensures(frames_go_on, (o,), r),
    ensures
        r <==> o is Delivered || o is Malformed,
{
}

/// The companion pairs under the name that the app gave it, and under one of its own
/// before that.
pub proof fn pairing_uses_the_given_name(c: Companion, s: String)
    requires
        call_ensures(Companion::pairing_name, (&c,), s),
    ensures
        c.device_name matches Some(n) ==> s@ == n@,
        c.device_name is None ==> s@ == "ansync companion"@,
{
}

/// A companion begins without a host, and opening a connection changes neither names nor
/// where files go.
pub proof fn companions_begin_without_a_host(dir: String, c: Companion)
    requires
        call_ensures(Companion::new, (dir,), c),
    ensures
        c.download_dir == dir && c.session is None && !c.connected && c.input_sent == 0,
        c.device_name is None && c.host_name is None,
        forall|d: &mut Companion, conn: u64, key: [u8; 32]|
            #[trigger] call_ensures(Companion::opened, (d, conn, &key), ())
                ==> final(d).download_dir == d.download_dir && final(d).device_name == d.device_name
                && final(d).host_name == d.host_name && final(d).input_sent == d.input_sent,
{
}

/// Before the app gives it a name, the companion greets under one of its own.
pub proof fn greeting_has_a_name(c: Companion, s: String)
    requires
        call_ensures(Companion::greeting_name, (&c,), s),
    ensures
        c.device_name is None ==> s@ == "android"@,
{
}

} // verus!
