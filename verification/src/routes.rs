//! Requests of the desktop: sound routes, cameras, files, links and the
//! clipboard, and the media that a companion sends.

use vstd::prelude::*;
use vstd::string::*;

use crate::core_types::DeviceId;
use crate::hex_text::hex_chars;
use crate::peer::{in_one, in_only_if, in_sum, only_if, Ask, Effect, PeerRuntime, Tile};
use crate::text::concat;
use crate::wire::{AudioDirection, CameraConfig};

verus! {

/// A request of the desktop to the daemon.
pub enum DaemonAction {
    StartAudioSink { device: DeviceId },
    StopAudioSink { device: DeviceId },
    StartAudioRoute { device: DeviceId, direction: AudioDirection },
    StopAudioRoute { device: DeviceId },
    StartMicrophone { device: DeviceId },
    StopMicrophone { device: DeviceId },
    SyncClipboard { device: DeviceId },
    SendFiles { device: DeviceId, paths: Vec<String> },
    SendUrl { device: DeviceId, url: String },
    StartCamera { device: DeviceId, config: CameraConfig },
    StopCamera { device: DeviceId },
    ShowScreen { device: DeviceId },
    HideScreen { device: DeviceId },
}

/// What a request comes down to.
#[derive(Debug, Clone, Copy, PartialEq, Eq, Structural)]
pub enum Job {
    /// Bring up sound in this direction, shown on this switch.
    StartAudio(AudioDirection, Tile),
    /// Take sound down, shown on this switch.
    StopAudio(Tile),
    PushClipboard,
    SendFiles,
    SendUrl,
    StartCamera,
    StopCamera,
    ShowScreen,
    HideScreen,
}

impl DaemonAction {
    /// The device that a request is about.
    pub open spec fn target(self) -> DeviceId {
        match self {
            DaemonAction::StartAudioSink { device } => device,
            DaemonAction::StopAudioSink { device } => device,
            DaemonAction::StartAudioRoute { device, .. } => device,
            DaemonAction::StopAudioRoute { device } => device,
            DaemonAction::StartMicrophone { device } => device,
            DaemonAction::StopMicrophone { device } => device,
            DaemonAction::SyncClipboard { device } => device,
            DaemonAction::SendFiles { device, .. } => device,
            DaemonAction::SendUrl { device, .. } => device,
            DaemonAction::StartCamera { device, .. } => device,
            DaemonAction::StopCamera { device } => device,
            DaemonAction::ShowScreen { device } => device,
            DaemonAction::HideScreen { device } => device,
        }
    }

    /// What a request comes down to. A microphone is sound from the device, on
    /// its own switch; the sound sink is sound to the device.
    pub open spec fn job_of(self) -> Job {
        match self {
            DaemonAction::StartAudioSink { .. } => Job::StartAudio(
                AudioDirection::HostToDevice,
                Tile::Audio,
            ),
            DaemonAction::StopAudioSink { .. } => Job::StopAudio(Tile::Audio),
            DaemonAction::StartAudioRoute { direction, .. } => Job::StartAudio(
                direction,
                Tile::Audio,
            ),
            DaemonAction::StopAudioRoute { .. } => Job::StopAudio(Tile::Audio),
            DaemonAction::StartMicrophone { .. } => Job::StartAudio(
                AudioDirection::DeviceToHost,
                Tile::Mic,
            ),
            DaemonAction::StopMicrophone { .. } => Job::StopAudio(Tile::Mic),
            DaemonAction::SyncClipboard { .. } => Job::PushClipboard,
            DaemonAction::SendFiles { .. } => Job::SendFiles,
            DaemonAction::SendUrl { .. } => Job::SendUrl,
            DaemonAction::StartCamera { .. } => Job::StartCamera,
            DaemonAction::StopCamera { .. } => Job::StopCamera,
            DaemonAction::ShowScreen { .. } => Job::ShowScreen,
            DaemonAction::HideScreen { .. } => Job::HideScreen,
        }
    }

    pub fn device(&self) -> (d: DeviceId)
        ensures
            d == self.target(),
    {
        match self {
            DaemonAction::StartAudioSink { device } => *device,
            DaemonAction::StopAudioSink { device } => *device,
            DaemonAction::StartAudioRoute { device, .. } => *device,
            DaemonAction::StopAudioRoute { device } => *device,
            DaemonAction::StartMicrophone { device } => *device,
            DaemonAction::StopMicrophone { device } => *device,
            DaemonAction::SyncClipboard { device } => *device,
            DaemonAction::SendFiles { device, .. } => *device,
            DaemonAction::SendUrl { device, .. } => *device,
            DaemonAction::StartCamera { device, .. } => *device,
            DaemonAction::StopCamera { device } => *device,
            DaemonAction::ShowScreen { device } => *device,
            DaemonAction::HideScreen { device } => *device,
        }
    }

    pub fn job(&self) -> (j: Job)
        ensures
            j == self.job_of(),
    {
        match self {
            DaemonAction::StartAudioSink { .. } => Job::StartAudio(
                AudioDirection::HostToDevice,
                Tile::Audio,
            ),
            DaemonAction::StopAudioSink { .. } => Job::StopAudio(Tile::Audio),
            DaemonAction::StartAudioRoute { direction, .. } => Job::StartAudio(
                *direction,
                Tile::Audio,
            ),
            DaemonAction::StopAudioRoute { .. } => Job::StopAudio(Tile::Audio),
            DaemonAction::StartMicrophone { .. } => Job::StartAudio(
                AudioDirection::DeviceToHost,
                Tile::Mic,
            ),
            DaemonAction::StopMicrophone { .. } => Job::StopAudio(Tile::Mic),
            DaemonAction::SyncClipboard { .. } => Job::PushClipboard,
            DaemonAction::SendFiles { .. } => Job::SendFiles,
            DaemonAction::SendUrl { .. } => Job::SendUrl,
            DaemonAction::StartCamera { .. } => Job::StartCamera,
            DaemonAction::StopCamera { .. } => Job::StopCamera,
            DaemonAction::ShowScreen { .. } => Job::ShowScreen,
            DaemonAction::HideScreen { .. } => Job::HideScreen,
        }
    }
}

/// What the desktop is shown when a job is over: a start that succeeded turns its
/// switch on, a stop turns it off. A start that met a closed gate did not succeed, as
/// `Gate::opens` says.
pub fn job_done(job: Job, ok: bool) -> (tile: Option<Effect>)
    ensures
        tile == (match job {
            Job::StartAudio(_, t) => if ok {
                Some(Effect::ShowTile(t, true))
            } else {
                None
            },
            Job::StopAudio(t) => Some(Effect::ShowTile(t, false)),
            Job::StartCamera => if ok {
                Some(Effect::ShowTile(Tile::Camera, true))
            } else {
                None
            },
            Job::StopCamera => if ok {
                Some(Effect::ShowTile(Tile::Camera, false))
            } else {
                None
            },
            _ => None,
        }),
{
    match job {
        Job::StartAudio(_, t) => if ok {
            Some(Effect::ShowTile(t, true))
        } else {
            None
        },
        Job::StopAudio(t) => Some(Effect::ShowTile(t, false)),
        Job::StartCamera => if ok {
            Some(Effect::ShowTile(Tile::Camera, true))
        } else {
            None
        },
        Job::StopCamera => if ok {
            Some(Effect::ShowTile(Tile::Camera, false))
        } else {
            None
        },
        _ => None,
    }
}

// ---- whether a request can go ahead ---------------------------------------------------

#[derive(Debug, Clone, Copy, PartialEq, Eq, Structural)]
pub enum Gate {
    /// The user does not allow it.
    Refused,
    /// The device never connected.
    NoEntry,
    NotConnected,
    /// Over this connection.
    Go(u64),
}

impl Gate {
    /// The error that a closed gate is reported as.
    pub open spec fn message(self, device: DeviceId) -> Option<Seq<char>> {
        match self {
            Gate::NoEntry => Some("no mirror entry for "@ + hex_chars(device@)),
            Gate::NotConnected => Some("peer "@ + hex_chars(device@) + " not connected"@),
            _ => None,
        }
    }

    /// Whether a request goes on from here. Of one that does not, nothing is done,
    /// be it refused or without a connection.
    pub fn opens(self) -> (ok: bool)
        ensures
            ok == self.is_open(),
    {
        match self {
            Gate::Go(_) => true,
            _ => false,
        }
    }

    pub open spec fn is_open(self) -> bool {
        self is Go
    }

    pub fn error(self, device: &DeviceId) -> (e: Option<String>)
        ensures
            match (e, self.message(*device)) {
                (Some(s), Some(m)) => s@ == m,
                (None, None) => true,
                _ => false,
            },
    {
        match self {
            Gate::NoEntry => Some(concat("no mirror entry for ", device.hex().as_str())),
            Gate::NotConnected => {
                let mut s: String = concat("peer ", device.hex().as_str());
                s.append(" not connected");
                Some(s)
            },
            _ => None,
        }
    }
}

/// Permission comes first, then whether the device is known, then whether it
/// is there.
pub fn gate(peer: Option<&PeerRuntime>, allowed: bool) -> (g: Gate)
    ensures
        g == (if !allowed {
            Gate::Refused
        } else {
            match peer {
                None => Gate::NoEntry,
                Some(p) => match p.conn {
                    None => Gate::NotConnected,
                    Some(c) => Gate::Go(c),
                },
            }
        }),
{
    if !allowed {
        return Gate::Refused;
    }
    match peer {
        None => Gate::NoEntry,
        Some(p) => match p.conn {
            None => Gate::NotConnected,
            Some(c) => Gate::Go(c),
        },
    }
}

pub open spec fn wants_in(d: AudioDirection) -> bool {
    d != AudioDirection::HostToDevice
}

pub open spec fn wants_out(d: AudioDirection) -> bool {
    d != AudioDirection::DeviceToHost
}

fn needs_in(d: AudioDirection) -> (r: bool)
    ensures
        r == wants_in(d),
{
    match d {
        AudioDirection::HostToDevice => false,
        AudioDirection::DeviceToHost | AudioDirection::Both => true,
    }
}

fn needs_out(d: AudioDirection) -> (r: bool)
    ensures
        r == wants_out(d),
{
    match d {
        AudioDirection::DeviceToHost => false,
        AudioDirection::HostToDevice | AudioDirection::Both => true,
    }
}

/// Whether the user allows sound in every direction that a route needs.
pub fn audio_allowed(d: AudioDirection, allowed_in: bool, allowed_out: bool) -> (r: bool)
    ensures
        r == ((wants_in(d) ==> allowed_in) && (wants_out(d) ==> allowed_out)),
{
    (!needs_in(d) || allowed_in) && (!needs_out(d) || allowed_out)
}

// ---- sound ------------------------------------------------------------------------------

/// The next step of bringing up a sound route.
#[derive(Debug, Clone, Copy, PartialEq, Eq, Structural)]
pub enum AudioNext {
    /// Make the virtual sound device.
    MakeSink,
    /// Open a stream to the companion and send its header.
    OpenStream,
    /// Start recording the host's sound.
    MakeSource,
    MakeEncoder,
    /// Start sending.
    StartPump,
    Done,
    Failed,
}

#[derive(Debug, Clone, Copy, PartialEq, Eq, Structural)]
pub enum AudioCodec {
    Raw,
    OpusVoip,
    OpusAudio,
}

/// The header of a sound stream.
#[derive(Debug, Clone, Copy, PartialEq, Eq, Structural)]
pub struct AudioStreamInit {
    pub sample_rate: u32,
    pub channels: u8,
    pub direction: AudioDirection,
    pub codec: AudioCodec,
    pub frame_samples: u16,
}

/// The header of the host's sound: 48 kHz stereo, music profile, 20 ms frames.
pub fn outbound_init() -> (init: AudioStreamInit)
    ensures
        init == (AudioStreamInit {
            sample_rate: 48000,
            channels: 2,
            direction: AudioDirection::HostToDevice,
            codec: AudioCodec::OpusAudio,
            frame_samples: 960,
        }),
{
    AudioStreamInit {
        sample_rate: 48000,
        channels: 2,
        direction: AudioDirection::HostToDevice,
        codec: AudioCodec::OpusAudio,
        frame_samples: 960,
    }
}

/// What comes after the inbound half of a route is up.
pub open spec fn after_inbound(d: AudioDirection) -> AudioNext {
    if wants_out(d) {
        AudioNext::OpenStream
    } else {
        AudioNext::Done
    }
}

impl PeerRuntime {
    /// A sound route was let through: count its packets and tell the companion.
    pub fn audio_begin(&mut self, conn: u64, d: AudioDirection) -> (todo: Vec<Effect>)
        ensures
            *final(self) == (PeerRuntime { audio_stats: true, ..*old(self) }),
            todo@ == only_if(!old(self).audio_stats, Effect::StartAudioStats) + seq![
                Effect::Send(conn, Ask::StartAudio(d)),
            ],
            old(self).wf() ==> final(self).wf(),
    {
        let mut todo: Vec<Effect> = Vec::new();
        if !self.audio_stats {
            todo.push(Effect::StartAudioStats);
        }
        self.audio_stats = true;
        todo.push(Effect::Send(conn, Ask::StartAudio(d)));
        assert(todo@ =~= only_if(!old(self).audio_stats, Effect::StartAudioStats) + seq![
            Effect::Send(conn, Ask::StartAudio(d)),
        ]);
        todo
    }

    /// The companion was told, or could not be. A virtual sound device that is
    /// there already is used again.
    pub fn audio_asked(&mut self, d: AudioDirection, tile: Tile, sent: bool) -> (next: AudioNext)
        ensures
            *final(self) == (if sent && wants_in(d) {
                PeerRuntime { audio_tile: Some(tile), ..*old(self) }
            } else {
                *old(self)
            }),
            next == (if !sent {
                AudioNext::Failed
            } else if wants_in(d) && !old(self).audio_sink {
                AudioNext::MakeSink
            } else {
                after_inbound(d)
            }),
            old(self).wf() ==> final(self).wf(),
    {
        if !sent {
            return AudioNext::Failed;
        }
        if needs_in(d) {
            self.audio_tile = Some(tile);
            if !self.audio_sink {
                return AudioNext::MakeSink;
            }
        }
        if needs_out(d) {
            AudioNext::OpenStream
        } else {
            AudioNext::Done
        }
    }

    /// The virtual sound device was made, or could not be; then the route ends
    /// without an error.
    pub fn audio_sink_made(&mut self, d: AudioDirection, ok: bool) -> (next: AudioNext)
        ensures
            *final(self) == (PeerRuntime { audio_sink: old(self).audio_sink || ok, ..*old(self) }),
            next == (if ok {
                after_inbound(d)
            } else {
                AudioNext::Done
            }),
            old(self).wf() ==> final(self).wf(),
    {
        if !ok {
            return AudioNext::Done;
        }
        self.audio_sink = true;
        if needs_out(d) {
            AudioNext::OpenStream
        } else {
            AudioNext::Done
        }
    }

    /// The stream to the companion is open and has its header, or is not.
    pub fn audio_stream_opened(&self, ok: bool) -> (next: AudioNext)
        ensures
            next == (if ok {
                AudioNext::MakeSource
            } else {
                AudioNext::Failed
            }),
    {
        if ok {
            AudioNext::MakeSource
        } else {
            AudioNext::Failed
        }
    }

    /// The host's sound is being recorded, or cannot be; then the route ends
    /// without an error.
    pub fn audio_source_made(&self, ok: bool) -> (next: AudioNext)
        ensures
            next == (if ok {
                AudioNext::MakeEncoder
            } else {
                AudioNext::Done
            }),
    {
        if ok {
            AudioNext::MakeEncoder
        } else {
            AudioNext::Done
        }
    }

    pub fn audio_encoder_made(&mut self, ok: bool) -> (next: AudioNext)
        ensures
            *final(self) == (PeerRuntime { audio_pump: old(self).audio_pump || ok, ..*old(self) }),
            next == (if ok {
                AudioNext::StartPump
            } else {
                AudioNext::Failed
            }),
            old(self).wf() ==> final(self).wf(),
    {
        if ok {
            self.audio_pump = true;
            AudioNext::StartPump
        } else {
            AudioNext::Failed
        }
    }

    pub open spec fn without_sound(self) -> PeerRuntime {
        PeerRuntime {
            audio_sink: false,
            audio_stats: false,
            audio_pump: false,
            audio_tx: false,
            audio_render: false,
            audio_tile: None,
            ..self
        }
    }

    pub open spec fn stop_audio_effects(self) -> Seq<Effect> {
        only_if(self.audio_pump, Effect::StopPump) + only_if(self.audio_render, Effect::StopRender)
            + only_if(self.audio_stats, Effect::StopAudioStats)
    }

    /// Takes every sound route down, the virtual sound device too.
    pub fn stop_audio(&mut self) -> (todo: Vec<Effect>)
        ensures
            *final(self) == old(self).without_sound(),
            todo@ == old(self).stop_audio_effects(),
            old(self).wf() ==> final(self).wf(),
    {
        let mut todo: Vec<Effect> = Vec::new();
        if self.audio_pump {
            todo.push(Effect::StopPump);
        }
        if self.audio_render {
            todo.push(Effect::StopRender);
        }
        if self.audio_stats {
            todo.push(Effect::StopAudioStats);
        }
        self.audio_sink = false;
        self.audio_stats = false;
        self.audio_pump = false;
        self.audio_tx = false;
        self.audio_render = false;
        self.audio_tile = None;
        assert(todo@ =~= old(self).stop_audio_effects());
        todo
    }

    /// The header of the companion's sound arrived. Rendering needs the virtual
    /// sound device; one renderer replaces another.
    pub fn audio_header(&mut self) -> (render: Option<Option<Effect>>)
        ensures
            *final(self) == (PeerRuntime {
                audio_tx: true,
                audio_render: old(self).audio_render || old(self).audio_sink,
                ..*old(self)
            }),
            render == (if !old(self).audio_sink {
                None
            } else if old(self).audio_render {
                Some(Some(Effect::StopRender))
            } else {
                Some(None)
            }),
            old(self).wf() ==> final(self).wf(),
    {
        self.audio_tx = true;
        if !self.audio_sink {
            return None;
        }
        if self.audio_render {
            return Some(Some(Effect::StopRender));
        }
        self.audio_render = true;
        Some(None)
    }

    pub open spec fn plays(self, allowed: bool) -> bool {
        allowed && self.audio_tx
    }

    /// Whether a piece of the companion's sound is played.
    pub fn audio_chunk(&self, allowed: bool) -> (play: bool)
        ensures
            play == self.plays(allowed),
    {
        allowed && self.audio_tx
    }

    pub open spec fn sound_end_tile(self) -> Option<Effect> {
        match self.audio_tile {
            Some(t) => Some(Effect::ShowTile(t, false)),
            None => None,
        }
    }

    /// The companion's sound ended. The switch goes off unless the host itself
    /// took the route down.
    pub fn audio_inbound_ended(&mut self) -> (tile: Option<Effect>)
        ensures
            tile == old(self).sound_end_tile(),
            *final(self) == (if old(self).audio_tile is Some {
                PeerRuntime { audio_tile: None, audio_tx: false, ..*old(self) }
            } else {
                *old(self)
            }),
            old(self).wf() ==> final(self).wf(),
    {
        match self.audio_tile {
            Some(t) => {
                self.audio_tile = None;
                self.audio_tx = false;
                Some(Effect::ShowTile(t, false))
            },
            None => None,
        }
    }

    // ---- camera ---------------------------------------------------------------------------

    pub open spec fn camera_begin_effects(self, conn: u64) -> Seq<Effect> {
        only_if(self.camera_task, Effect::StopDecoder) + only_if(
            !self.camera_sink,
            Effect::BuildCameraSink,
        ) + seq![Effect::Send(conn, Ask::StartCamera)]
    }

    /// A camera was let through: stop what ran before, see that there is a
    /// virtual camera, and tell the companion.
    pub fn camera_begin(&mut self, conn: u64) -> (todo: Vec<Effect>)
        ensures
            *final(self) == (PeerRuntime { camera_task: false, camera_sink: true, ..*old(self) }),
            todo@ == old(self).camera_begin_effects(conn),
            old(self).wf() ==> final(self).wf(),
    {
        let mut todo: Vec<Effect> = Vec::new();
        if self.camera_task {
            todo.push(Effect::StopDecoder);
        }
        if !self.camera_sink {
            todo.push(Effect::BuildCameraSink);
        }
        self.camera_task = false;
        self.camera_sink = true;
        todo.push(Effect::Send(conn, Ask::StartCamera));
        assert(todo@ =~= old(self).camera_begin_effects(conn));
        todo
    }

    /// The companion was told of the camera, or could not be.
    pub fn camera_asked(&mut self, sent: bool) -> (todo: Option<Effect>)
        ensures
            *final(self) == (if sent {
                PeerRuntime { camera_task: true, camera_frames: true, ..*old(self) }
            } else {
                *old(self)
            }),
            todo == (if sent {
                Some(Effect::StartDecoder)
            } else {
                None
            }),
            old(self).wf() ==> final(self).wf(),
    {
        if sent {
            self.camera_frames = true;
            self.camera_task = true;
            Some(Effect::StartDecoder)
        } else {
            None
        }
    }

    pub open spec fn without_camera(self) -> PeerRuntime {
        PeerRuntime {
            camera_sink: false,
            camera_registered: false,
            camera_task: false,
            camera_frames: false,
            ..self
        }
    }

    pub open spec fn stop_camera_effects(self) -> Seq<Effect> {
        (match self.conn {
            Some(c) => seq![Effect::Send(c, Ask::StopCamera)],
            None => seq![],
        }) + only_if(self.camera_task, Effect::StopDecoder) + only_if(
            self.camera_sink,
            Effect::ReleaseCameraSink,
        )
    }

    /// Takes the camera down. The companion is told first.
    pub fn stop_camera(&mut self) -> (todo: Vec<Effect>)
        ensures
            *final(self) == old(self).without_camera(),
            todo@ == old(self).stop_camera_effects(),
            old(self).wf() ==> final(self).wf(),
    {
        let mut todo: Vec<Effect> = Vec::new();
        if let Some(c) = self.conn {
            todo.push(Effect::Send(c, Ask::StopCamera));
        }
        if self.camera_task {
            todo.push(Effect::StopDecoder);
        }
        if self.camera_sink {
            todo.push(Effect::ReleaseCameraSink);
        }
        self.camera_sink = false;
        self.camera_registered = false;
        self.camera_task = false;
        self.camera_frames = false;
        assert(todo@ =~= old(self).stop_camera_effects());
        todo
    }

    /// Whether an encoded camera frame is decoded. Frames outside of a running
    /// camera are dropped.
    pub fn camera_packet(&self) -> (decode: bool)
        ensures
            decode == self.camera_frames,
    {
        self.camera_frames
    }

    pub open spec fn camera_end_tile(self) -> Option<Effect> {
        if self.camera_frames {
            Some(Effect::ShowTile(Tile::Camera, false))
        } else {
            None
        }
    }

    /// The companion's camera stream ended. The switch goes off unless the host
    /// itself took the camera down.
    pub fn camera_stream_ended(&mut self) -> (tile: Option<Effect>)
        ensures
            *final(self) == (PeerRuntime { camera_frames: false, ..*old(self) }),
            tile == old(self).camera_end_tile(),
            old(self).wf() ==> final(self).wf(),
    {
        if self.camera_frames {
            self.camera_frames = false;
            Some(Effect::ShowTile(Tile::Camera, false))
        } else {
            None
        }
    }

    pub open spec fn frame_next(self) -> FrameNext {
        if !self.camera_sink {
            FrameNext::Stop
        } else if !self.camera_registered {
            FrameNext::Register
        } else {
            FrameNext::Write
        }
    }

    /// A frame was decoded.
    pub fn camera_frame(&self) -> (next: FrameNext)
        ensures
            next == self.frame_next(),
    {
        if !self.camera_sink {
            FrameNext::Stop
        } else if !self.camera_registered {
            FrameNext::Register
        } else {
            FrameNext::Write
        }
    }

    /// The virtual camera got its format, or did not.
    pub fn camera_format_set(&mut self, ok: bool) -> (next: FrameNext)
        ensures
            *final(self) == (PeerRuntime {
                camera_registered: old(self).camera_registered || ok,
                ..*old(self)
            }),
            next == (if ok {
                FrameNext::Write
            } else {
                FrameNext::Stop
            }),
            old(self).wf() && old(self).camera_sink ==> final(self).wf(),
    {
        if ok {
            self.camera_registered = true;
            FrameNext::Write
        } else {
            FrameNext::Stop
        }
    }

    // ---- names ------------------------------------------------------------------------------

    /// Title of the mirror window.
    pub fn window_title(&self) -> (s: String)
        ensures
            s@ == "ansync — "@ + self.name@,
    {
        concat("ansync — ", self.name.as_str())
    }

    /// Name of the virtual sound device.
    pub fn sink_label(&self) -> (s: String)
        ensures
            s@ == "ansync-in-"@ + self.name@,
    {
        concat("ansync-in-", self.name.as_str())
    }

    /// Name of the recorder of the host's sound.
    pub fn source_label(&self) -> (s: String)
        ensures
            s@ == "ansync-out-"@ + self.name@,
    {
        concat("ansync-out-", self.name.as_str())
    }
}

/// What to do with a decoded camera frame.
#[derive(Debug, Clone, Copy, PartialEq, Eq, Structural)]
pub enum FrameNext {
    /// Give the virtual camera the format of this frame first.
    Register,
    Write,
    /// Stop decoding.
    Stop,
}

/// A window that is open is not opened a second time, and capture that runs is
/// not asked for again.
pub proof fn show_is_idempotent(p: PeerRuntime, conn: u64)
    requires
        p.window,
        p.video_inbound,
    ensures
        !p.show_effects().contains(Effect::SpawnWindow),
        !p.show_effects().contains(Effect::Send(conn, Ask::RequestCapture)),
{
}

/// A window that was closed can be opened again.
pub proof fn hidden_window_reopens(p: PeerRuntime)
    ensures
        (PeerRuntime { window: false, video_tx: false, ..p }).show_effects().contains(
            Effect::SpawnWindow,
        ),
{
    let q = PeerRuntime { window: false, video_tx: false, ..p };
    assert(q.show_effects().last() == Effect::SpawnWindow);
}

/// Sound that was taken down stays down: no piece is played, its end turns no switch,
/// and taking it down again does nothing. The camera, the window and the connection
/// are not touched.
pub proof fn stopped_sound_stays_off(p: PeerRuntime, allowed: bool)
    ensures
        !p.without_sound().plays(allowed),
        p.without_sound().sound_end_tile() is None,
        p.without_sound().without_sound() == p.without_sound(),
        p.without_sound().stop_audio_effects() == Seq::<Effect>::empty(),
        p.without_sound().without_camera() == p.without_camera().without_sound(),
        p.without_sound().show_effects() == p.show_effects(),
        p.without_sound().conn == p.conn,
{
}

/// A camera that was taken down stays down: no packet is decoded, no frame is
/// written, and the end of its stream turns no switch.
pub proof fn stopped_camera_stays_off(p: PeerRuntime)
    ensures
        !p.without_camera().camera_frames,
        p.without_camera().frame_next() == FrameNext::Stop,
        p.without_camera().camera_end_tile() is None,
        p.without_camera().without_camera() == p.without_camera(),
        p.without_camera().show_effects() == p.show_effects(),
        p.without_camera().conn == p.conn,
{
}

// ---- what requests come to ----------------------------------------------------------------

/// A request is for the device that it names.
pub proof fn requests_reach_their_device(
    d: DeviceId,
    direction: AudioDirection,
    paths: Vec<String>,
    url: String,
    config: CameraConfig,
)
    ensures
        (DaemonAction::StartAudioSink { device: d }).target() == d,
        (DaemonAction::StopAudioSink { device: d }).target() == d,
        (DaemonAction::StartAudioRoute { device: d, direction }).target() == d,
        (DaemonAction::StopAudioRoute { device: d }).target() == d,
        (DaemonAction::StartMicrophone { device: d }).target() == d,
        (DaemonAction::StopMicrophone { device: d }).target() == d,
        (DaemonAction::SyncClipboard { device: d }).target() == d,
        (DaemonAction::SendFiles { device: d, paths }).target() == d,
        (DaemonAction::SendUrl { device: d, url }).target() == d,
        (DaemonAction::StartCamera { device: d, config }).target() == d,
        (DaemonAction::StopCamera { device: d }).target() == d,
        (DaemonAction::ShowScreen { device: d }).target() == d,
        (DaemonAction::HideScreen { device: d }).target() == d,
{
}

/// Each request starts or stops what it is called after: the microphone brings sound
/// from the device, the sound sink takes it there, and a route goes the way that was
/// asked for. What a request turns on, the one that stops it turns off.
pub proof fn requests_do_what_they_say(
    d: DeviceId,
    direction: AudioDirection,
    paths: Vec<String>,
    url: String,
    config: CameraConfig,
)
    ensures
        (DaemonAction::StartMicrophone { device: d }).job_of() matches Job::StartAudio(way, t) && way
            == AudioDirection::DeviceToHost && t == Tile::Mic
            && (DaemonAction::StopMicrophone { device: d }).job_of() == Job::StopAudio(t),
        (DaemonAction::StartAudioSink { device: d }).job_of() matches Job::StartAudio(way, t) && way
            == AudioDirection::HostToDevice && t == Tile::Audio
            && (DaemonAction::StopAudioSink { device: d }).job_of() == Job::StopAudio(t),
        (DaemonAction::StartAudioRoute { device: d, direction }).job_of() matches Job::StartAudio(
            way,
            t,
        ) && way == direction && t == Tile::Audio
            && (DaemonAction::StopAudioRoute { device: d }).job_of() == Job::StopAudio(t),
        (DaemonAction::SyncClipboard { device: d }).job_of() is PushClipboard,
        (DaemonAction::SendFiles { device: d, paths }).job_of() is SendFiles,
        (DaemonAction::SendUrl { device: d, url }).job_of() is SendUrl,
        (DaemonAction::StartCamera { device: d, config }).job_of() is StartCamera,
        (DaemonAction::StopCamera { device: d }).job_of() is StopCamera,
        (DaemonAction::ShowScreen { device: d }).job_of() is ShowScreen,
        (DaemonAction::HideScreen { device: d }).job_of() is HideScreen,
{
}

/// A switch goes on only by a start that succeeded, and it is the switch of what was
/// started; a stop turns it off, and that of sound in any case. A job without a
/// stream turns no switch.
pub proof fn switches_follow_the_streams(job: Job, ok: bool, tile: Option<Effect>, t: Tile)
    requires
        call_ensures(job_done, (job, ok), tile),
    ensures
        tile matches Some(e) ==> e is ShowTile,
        tile == Some(Effect::ShowTile(t, true)) <==> ok && (match job {
            Job::StartAudio(_, of) => of == t,
            Job::StartCamera => t == Tile::Camera,
            _ => false,
        }),
        tile == Some(Effect::ShowTile(t, false)) <==> (match job {
            Job::StopAudio(of) => of == t,
            Job::StopCamera => ok && t == Tile::Camera,
            _ => false,
        }),
{
}

/// Nothing passes that the user does not allow, and nothing goes to a peer that is not
/// connected; what passes goes over the connection in use.
pub proof fn gate_keeps(p: PeerRuntime, allowed: bool, known: Gate, unknown: Gate, c: u64)
    requires
        call_ensures(gate, (Some(&p), allowed), known),
        call_ensures(gate, (None::<&PeerRuntime>, allowed), unknown),
    ensures
        known.is_open() <==> allowed && p.conn is Some,
        known == Gate::Go(c) <==> allowed && p.conn == Some(c),
        !unknown.is_open(),
        !allowed <==> known == Gate::Refused,
        !allowed <==> unknown == Gate::Refused,
        allowed && p.conn is None <==> known == Gate::NotConnected,
        allowed <==> unknown == Gate::NoEntry,
        Gate::Go(c).is_open(),
        !Gate::Refused.is_open() && !Gate::NoEntry.is_open() && !Gate::NotConnected.is_open(),
{
}

/// Sound needs the permission for each way that it goes, and for no other.
pub proof fn sound_needs_permission(
    allowed_in: bool,
    allowed_out: bool,
    from: bool,
    to: bool,
    both: bool,
)
    requires
        call_ensures(audio_allowed, (AudioDirection::DeviceToHost, allowed_in, allowed_out), from),
        call_ensures(audio_allowed, (AudioDirection::HostToDevice, allowed_in, allowed_out), to),
        call_ensures(audio_allowed, (AudioDirection::Both, allowed_in, allowed_out), both),
    ensures
        from == allowed_in,
        to == allowed_out,
        both == (allowed_in && allowed_out),
{
}

/// A route that was let through tells the companion which way the sound goes, and
/// counts packets from the first route on.
pub proof fn sound_is_asked_for()
    ensures
        forall|m: &mut PeerRuntime, conn: u64, d: AudioDirection, did: Vec<Effect>|
            #[trigger] call_ensures(PeerRuntime::audio_begin, (m, conn, d), did) ==> {
                &&& final(m).audio_stats
                &&& *final(m) == (PeerRuntime { audio_stats: true, ..*m })
                &&& forall|e: Effect| #[trigger]
                    did@.contains(e) <==> match e {
                        Effect::Send(c, Ask::StartAudio(way)) => c == conn && way == d,
                        Effect::StartAudioStats => !m.audio_stats,
                        _ => false,
                    }
            },
{
    assert forall|m: &mut PeerRuntime, conn: u64, d: AudioDirection, did: Vec<Effect>| #[trigger]
        call_ensures(PeerRuntime::audio_begin, (m, conn, d), did) implies {
        &&& final(m).audio_stats
        &&& *final(m) == (PeerRuntime { audio_stats: true, ..*m })
        &&& forall|e: Effect| #[trigger]
            did@.contains(e) <==> match e {
                Effect::Send(c, Ask::StartAudio(way)) => c == conn && way == d,
                Effect::StartAudioStats => !m.audio_stats,
                _ => false,
            }
    } by {
        let ask = Effect::Send(conn, Ask::StartAudio(d));
        assert forall|e: Effect| #[trigger]
            did@.contains(e) <==> match e {
                Effect::Send(c, Ask::StartAudio(way)) => c == conn && way == d,
                Effect::StartAudioStats => !m.audio_stats,
                _ => false,
            } by {
            in_sum(only_if(!m.audio_stats, Effect::StartAudioStats), seq![ask], e);
            in_only_if(!m.audio_stats, Effect::StartAudioStats, e);
            in_one(ask, e);
        }
    }
}

/// How a sound route comes up. Sound from the device needs a virtual sound device,
/// which is made unless there is one, and shows on its switch; sound to it needs a
/// stream, a recorder and an encoder, in this order. A route ends where the companion
/// could not be told, and sends once all is there.
pub proof fn sound_comes_up_in_order()
    ensures
        forall|m: &mut PeerRuntime, d: AudioDirection, tile: Tile, sent: bool, next: AudioNext|
            #[trigger] call_ensures(PeerRuntime::audio_asked, (m, d, tile, sent), next) ==> {
                &&& !sent ==> next == AudioNext::Failed && *final(m) == *m
                &&& sent && d == AudioDirection::HostToDevice ==> next == AudioNext::OpenStream
                    && *final(m) == *m
                &&& sent && d != AudioDirection::HostToDevice ==> final(m).audio_tile == Some(tile)
                    && (next == AudioNext::MakeSink <==> !m.audio_sink)
                &&& sent && d == AudioDirection::DeviceToHost && m.audio_sink ==> next
                    == AudioNext::Done
                &&& sent && d == AudioDirection::Both && m.audio_sink ==> next
                    == AudioNext::OpenStream
                &&& *final(m) == (PeerRuntime { audio_tile: final(m).audio_tile, ..*m })
            },
        forall|m: &mut PeerRuntime, d: AudioDirection, ok: bool, next: AudioNext|
            #[trigger] call_ensures(PeerRuntime::audio_sink_made, (m, d, ok), next) ==> {
                &&& ok ==> final(m).audio_sink
                &&& !ok ==> *final(m) == *m && next == AudioNext::Done
                &&& ok ==> (next == AudioNext::OpenStream <==> d != AudioDirection::DeviceToHost)
                &&& ok && d == AudioDirection::DeviceToHost ==> next == AudioNext::Done
                &&& *final(m) == (PeerRuntime { audio_sink: final(m).audio_sink, ..*m })
            },
        forall|p: PeerRuntime, ok: bool, next: AudioNext|
            #[trigger] call_ensures(PeerRuntime::audio_stream_opened, (&p, ok), next) ==> next == (
            if ok {
                AudioNext::MakeSource
            } else {
                AudioNext::Failed
            }),
        forall|p: PeerRuntime, ok: bool, next: AudioNext|
            #[trigger] call_ensures(PeerRuntime::audio_source_made, (&p, ok), next) ==> next == (
            if ok {
                AudioNext::MakeEncoder
            } else {
                AudioNext::Done
            }),
        forall|m: &mut PeerRuntime, ok: bool, next: AudioNext|
            #[trigger] call_ensures(PeerRuntime::audio_encoder_made, (m, ok), next) ==> {
                &&& ok ==> final(m).audio_pump && next == AudioNext::StartPump
                &&& !ok ==> *final(m) == *m && next == AudioNext::Failed
                &&& *final(m) == (PeerRuntime { audio_pump: final(m).audio_pump, ..*m })
            },
{
}

/// Taking sound down stops every task of it that runs, and no other, and leaves no
/// part of it.
pub proof fn stopping_sound_stops_what_runs(p: PeerRuntime, e: Effect)
    ensures
        p.stop_audio_effects().contains(e) <==> match e {
            Effect::StopPump => p.audio_pump,
            Effect::StopRender => p.audio_render,
            Effect::StopAudioStats => p.audio_stats,
            _ => false,
        },
        ({
            let q = p.without_sound();
            &&& !q.audio_sink && !q.audio_stats && !q.audio_pump && !q.audio_tx && !q.audio_render
            &&& q.audio_tile is None
            &&& q.name == p.name && q.window == p.window && q.video_tx == p.video_tx
            &&& q.video_inbound == p.video_inbound && q.camera_sink == p.camera_sink
            &&& q.camera_registered == p.camera_registered
            &&& q.camera_task == p.camera_task && q.camera_frames == p.camera_frames
        }),
{
    let a = only_if(p.audio_pump, Effect::StopPump);
    let b = only_if(p.audio_render, Effect::StopRender);
    let c = only_if(p.audio_stats, Effect::StopAudioStats);
    assert(p.stop_audio_effects() =~= a + b + c);
    in_sum(a + b, c, e);
    in_sum(a, b, e);
    in_only_if(p.audio_pump, Effect::StopPump, e);
    in_only_if(p.audio_render, Effect::StopRender, e);
    in_only_if(p.audio_stats, Effect::StopAudioStats, e);
}

/// Sound of the companion is rendered where there is a device for it, by one renderer
/// at a time, and a piece of it is played exactly while it is taken and allowed. When
/// it ends by itself its switch goes off, once.
pub proof fn sound_is_played_while_allowed()
    ensures
        forall|m: &mut PeerRuntime, render: Option<Option<Effect>>|
            #[trigger] call_ensures(PeerRuntime::audio_header, (m,), render) ==> {
                &&& final(m).audio_tx
                &&& render is Some <==> m.audio_sink
                &&& render == Some(Some(Effect::StopRender)) <==> m.audio_sink && m.audio_render
                &&& render == Some(None::<Effect>) <==> m.audio_sink && !m.audio_render
                &&& m.audio_sink ==> final(m).audio_render
                &&& !m.audio_sink ==> final(m).audio_render == m.audio_render
                &&& *final(m) == (PeerRuntime {
                    audio_tx: true,
                    audio_render: final(m).audio_render,
                    ..*m
                })
            },
        forall|p: PeerRuntime, allowed: bool, play: bool|
            #[trigger] call_ensures(PeerRuntime::audio_chunk, (&p, allowed), play) ==> play == (
            allowed && p.audio_tx),
        forall|m: &mut PeerRuntime, tile: Option<Effect>|
            #[trigger] call_ensures(PeerRuntime::audio_inbound_ended, (m,), tile) ==> {
                &&& tile is Some <==> m.audio_tile is Some
                &&& m.audio_tile matches Some(t) ==> tile == Some(Effect::ShowTile(t, false))
                &&& final(m).audio_tile is None
                &&& m.audio_tile is Some ==> !final(m).audio_tx
                &&& *final(m) == (PeerRuntime { audio_tile: None, audio_tx: final(m).audio_tx, ..*m })
                &&& m.audio_tile is None ==> *final(m) == *m
            },
{
}

/// A camera that was let through replaces the one that ran, has a virtual camera to
/// show in, made only where there is none, and is asked of the companion over this
/// connection.
pub proof fn camera_is_asked_for(p: PeerRuntime, conn: u64, e: Effect)
    ensures
        p.camera_begin_effects(conn).contains(e) <==> match e {
            Effect::Send(c, Ask::StartCamera) => c == conn,
            Effect::StopDecoder => p.camera_task,
            Effect::BuildCameraSink => !p.camera_sink,
            _ => false,
        },
        p.camera_begin_effects(conn).last() == Effect::Send(conn, Ask::StartCamera),
{
    let a = only_if(p.camera_task, Effect::StopDecoder);
    let b = only_if(!p.camera_sink, Effect::BuildCameraSink);
    let ask = Effect::Send(conn, Ask::StartCamera);
    assert(p.camera_begin_effects(conn) =~= a + b + seq![ask]);
    in_sum(a + b, seq![ask], e);
    in_sum(a, b, e);
    in_only_if(p.camera_task, Effect::StopDecoder, e);
    in_only_if(!p.camera_sink, Effect::BuildCameraSink, e);
    in_one(ask, e);
}

/// Taking the camera down tells the companion before anything else, stops the decoder
/// if it runs and gives the virtual camera back if there is one; nothing of it is left,
/// and nothing else is touched.
pub proof fn stopping_the_camera_tells_first(p: PeerRuntime, e: Effect)
    ensures
        p.stop_camera_effects().contains(e) <==> match e {
            Effect::Send(c, Ask::StopCamera) => p.conn == Some(c),
            Effect::StopDecoder => p.camera_task,
            Effect::ReleaseCameraSink => p.camera_sink,
            _ => false,
        },
        p.conn matches Some(c) ==> p.stop_camera_effects()[0] == Effect::Send(c, Ask::StopCamera),
        ({
            let q = p.without_camera();
            &&& !q.camera_sink && !q.camera_registered && !q.camera_task && !q.camera_frames
            &&& q.name == p.name && q.window == p.window && q.video_tx == p.video_tx
            &&& q.video_inbound == p.video_inbound && q.audio_sink == p.audio_sink
            &&& q.audio_stats == p.audio_stats && q.audio_pump == p.audio_pump
            &&& q.audio_tx == p.audio_tx && q.audio_render == p.audio_render
            &&& q.audio_tile == p.audio_tile
        }),
{
    let tell = match p.conn {
        Some(c) => seq![Effect::Send(c, Ask::StopCamera)],
        None => seq![],
    };
    let a = only_if(p.camera_task, Effect::StopDecoder);
    let b = only_if(p.camera_sink, Effect::ReleaseCameraSink);
    assert(p.stop_camera_effects() =~= tell + a + b);
    in_sum(tell + a, b, e);
    in_sum(tell, a, e);
    in_only_if(p.camera_task, Effect::StopDecoder, e);
    in_only_if(p.camera_sink, Effect::ReleaseCameraSink, e);
    if let Some(c) = p.conn {
        in_one(Effect::Send(c, Ask::StopCamera), e);
    }
}

/// The camera of a companion runs from when it was told until the camera is taken down
/// or its stream ends, and only then are packets decoded. Each frame is written once the
/// virtual camera has its format, which the first one gives it; without a virtual
/// camera decoding stops.
pub proof fn camera_frames_reach_the_camera()
    ensures
        forall|m: &mut PeerRuntime, conn: u64, did: Vec<Effect>|
            #[trigger] call_ensures(PeerRuntime::camera_begin, (m, conn), did) ==> {
                &&& final(m).camera_sink && !final(m).camera_task
                &&& did@ == m.camera_begin_effects(conn)
                &&& *final(m) == (PeerRuntime { camera_sink: true, camera_task: false, ..*m })
            },
        forall|m: &mut PeerRuntime, sent: bool, did: Option<Effect>|
            #[trigger] call_ensures(PeerRuntime::camera_asked, (m, sent), did) ==> {
                &&& did == Some(Effect::StartDecoder) <==> sent
                &&& did is Some <==> sent
                &&& sent ==> final(m).camera_task && final(m).camera_frames
                &&& !sent ==> *final(m) == *m
                &&& *final(m) == (PeerRuntime {
                    camera_task: final(m).camera_task,
                    camera_frames: final(m).camera_frames,
                    ..*m
                })
            },
        forall|p: PeerRuntime, decode: bool|
            #[trigger] call_ensures(PeerRuntime::camera_packet, (&p,), decode) ==> decode
                == p.camera_frames,
        forall|m: &mut PeerRuntime, tile: Option<Effect>|
            #[trigger] call_ensures(PeerRuntime::camera_stream_ended, (m,), tile) ==> {
                &&& !final(m).camera_frames
                &&& tile is Some <==> m.camera_frames
                &&& tile matches Some(e) ==> e == Effect::ShowTile(Tile::Camera, false)
                &&& *final(m) == (PeerRuntime { camera_frames: false, ..*m })
            },
        forall|p: PeerRuntime, next: FrameNext|
            #[trigger] call_ensures(PeerRuntime::camera_frame, (&p,), next) ==> {
                &&& next == FrameNext::Stop <==> !p.camera_sink
                &&& next == FrameNext::Register <==> p.camera_sink && !p.camera_registered
                &&& next == FrameNext::Write <==> p.camera_sink && p.camera_registered
            },
        forall|m: &mut PeerRuntime, ok: bool, next: FrameNext|
            #[trigger] call_ensures(PeerRuntime::camera_format_set, (m, ok), next) ==> {
                &&& ok ==> final(m).camera_registered && next == FrameNext::Write
                &&& !ok ==> *final(m) == *m && next == FrameNext::Stop
                &&& *final(m) == (PeerRuntime { camera_registered: final(m).camera_registered, ..*m })
            },
        forall|m: &mut PeerRuntime, did: Vec<Effect>|
            #[trigger] call_ensures(PeerRuntime::stop_camera, (m,), did) ==> *final(m)
                == m.without_camera() && did@ == m.stop_camera_effects(),
        forall|m: &mut PeerRuntime, did: Vec<Effect>|
            #[trigger] call_ensures(PeerRuntime::stop_audio, (m,), did) ==> *final(m)
                == m.without_sound() && did@ == m.stop_audio_effects(),
{
}

/// A request says for whom it is and what is to be done, a gate whether to go ahead and
/// why not, and what is sent begins as stereo music at 48000 samples a second. Windows
/// and sound have the name of the peer.
pub proof fn requests_and_names_are_told(
    a: DaemonAction,
    d: DeviceId,
    j: Job,
    g: Gate,
    ok: bool,
    e: Option<String>,
    init: AudioStreamInit,
    p: PeerRuntime,
    title: String,
    sink: String,
    source: String,
)
    requires
        call_ensures(DaemonAction::device, (&a,), d),
        call_ensures(DaemonAction::job, (&a,), j),
        call_ensures(Gate::opens, (g,), ok),
        call_ensures(Gate::error, (g, &d), e),
        call_ensures(outbound_init, (), init),
        call_ensures(PeerRuntime::window_title, (&p,), title),
        call_ensures(PeerRuntime::sink_label, (&p,), sink),
        call_ensures(PeerRuntime::source_label, (&p,), source),
    ensures
        d == a.target(),
        j == a.job_of(),
        ok <==> g is Go,
        e is Some <==> g.message(d) is Some,
        e is Some ==> Some(e->0@) == g.message(d),
        init.sample_rate == 48000 && init.channels == 2 && init.frame_samples == 960,
        init.direction == AudioDirection::HostToDevice && init.codec == AudioCodec::OpusAudio,
        title@ == "ansync — "@ + p.name@,
        sink@ == "ansync-in-"@ + p.name@,
        source@ == "ansync-out-"@ + p.name@,
{
}

} // verus!
