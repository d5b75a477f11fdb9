//! What the daemon keeps for one peer, and how connections, streams and
//! requests change it. Each change says what has to be done; something outside
//! does it.

use vstd::prelude::*;
use vstd::string::*;

use crate::conn_state::ConnState;
use crate::text::concat;
use crate::wire::AudioDirection;

verus! {

/// What a stream between two peers carries.
#[derive(Debug, Clone, Copy, PartialEq, Eq, Structural)]
pub enum StreamKind {
    Control,
    Input,
    Video,
    Camera,
    Audio,
    Files,
    Clipboard,
    Notifications,
    Hello,
    Url,
}

/// The switch on the desktop that a running stream belongs to.
#[derive(Debug, Clone, Copy, PartialEq, Eq, Structural)]
pub enum Tile {
    Screen,
    Camera,
    Mic,
    Audio,
}

impl Tile {
    pub open spec fn name(self) -> Seq<char> {
        match self {
            Tile::Screen => "screen"@,
            Tile::Camera => "camera"@,
            Tile::Mic => "mic"@,
            Tile::Audio => "audio"@,
        }
    }

    pub fn as_str(self) -> (s: &'static str)
        ensures
            s@ == self.name(),
    {
        match self {
            Tile::Screen => "screen",
            Tile::Camera => "camera",
            Tile::Mic => "mic",
            Tile::Audio => "audio",
        }
    }
}

/// A request to the companion.
#[derive(Debug, Clone, Copy, PartialEq, Eq, Structural)]
pub enum Ask {
    RequestCapture,
    StopCapture,
    StartCamera,
    StopCamera,
    StartAudio(AudioDirection),
}

/// Something to be done.
#[derive(Debug, Clone, Copy, PartialEq, Eq, Structural)]
pub enum Effect {
    /// Make this connectivity known.
    Announce(ConnState),
    /// Close this connection: a newer one took its place.
    Supersede(u64),
    SendHello(u64),
    StartStats(u64),
    StopStats(u64),
    /// Hand the stream to the part that serves its kind.
    Serve(StreamKind),
    /// Close the stream unread.
    DropStream,
    /// Open a stream for the window's input events.
    OpenInput(u64),
    Send(u64, Ask),
    SpawnWindow,
    ShutDownWindow,
    /// Tell the desktop whether a stream runs.
    ShowTile(Tile, bool),
    BuildCameraSink,
    ReleaseCameraSink,
    StartDecoder,
    StopDecoder,
    StartAudioStats,
    StopAudioStats,
    StopPump,
    StopRender,
}

/// Why accepting the next stream failed.
#[derive(Debug, Clone, Copy, PartialEq, Eq, Structural)]
pub enum AcceptError {
    Closed,
    TimedOut,
    Other,
}

/// What the daemon keeps for one peer.
pub struct PeerRuntime {
    pub name: String,
    /// The connection in use.
    pub conn: Option<u64>,
    /// A mirror window is open.
    pub window: bool,
    /// The window takes video.
    pub video_tx: bool,
    /// The companion sends video.
    pub video_inbound: bool,
    /// There is a virtual camera.
    pub camera_sink: bool,
    /// The virtual camera has its format.
    pub camera_registered: bool,
    /// A decoder runs.
    pub camera_task: bool,
    /// The decoder takes frames.
    pub camera_frames: bool,
    /// There is a virtual sound device.
    pub audio_sink: bool,
    pub audio_stats: bool,
    /// Host sound is being sent.
    pub audio_pump: bool,
    /// The renderer takes sound.
    pub audio_tx: bool,
    /// A renderer runs.
    pub audio_render: bool,
    /// The switch that the inbound sound belongs to.
    pub audio_tile: Option<Tile>,
}

/// `e` alone, or nothing.
pub open spec fn only_if(b: bool, e: Effect) -> Seq<Effect> {
    if b {
        seq![e]
    } else {
        seq![]
    }
}

fn push_if(out: &mut Vec<Effect>, b: bool, e: Effect)
    ensures
        final(out)@ == old(out)@ + only_if(b, e),
{
    if b {
        out.push(e);
    }
    assert(out@ =~= old(out)@ + only_if(b, e));
}

impl PeerRuntime {
    /// What holds of every peer: a window that takes video is open, sound is rendered
    /// into a virtual sound device that is there, and only a virtual camera that is
    /// there has its format.
    pub open spec fn wf(self) -> bool {
        &&& self.video_tx ==> self.window
        &&& self.audio_render ==> self.audio_sink
        &&& self.camera_registered ==> self.camera_sink
    }

    /// A peer with nothing going on.
    pub open spec fn idle(name: String) -> PeerRuntime {
        PeerRuntime {
            name,
            conn: None,
            window: false,
            video_tx: false,
            video_inbound: false,
            camera_sink: false,
            camera_registered: false,
            camera_task: false,
            camera_frames: false,
            audio_sink: false,
            audio_stats: false,
            audio_pump: false,
            audio_tx: false,
            audio_render: false,
            audio_tile: None,
        }
    }

    pub fn new(name: String) -> (p: Self)
        ensures
            p == Self::idle(name),
            p.wf(),
    {
        PeerRuntime {
            name,
            conn: None,
            window: false,
            video_tx: false,
            video_inbound: false,
            camera_sink: false,
            camera_registered: false,
            camera_task: false,
            camera_frames: false,
            audio_sink: false,
            audio_stats: false,
            audio_pump: false,
            audio_tx: false,
            audio_render: false,
            audio_tile: None,
        }
    }

    // ---- connections ----------------------------------------------------------------

    /// The peer connected. A connection that was in use is closed.
    pub fn connected(&mut self, id: u64) -> (todo: Vec<Effect>)
        ensures
            *final(self) == (PeerRuntime { conn: Some(id), ..*old(self) }),
            todo@ == seq![Effect::Announce(ConnState::Authenticated)] + (match old(self).conn {
                Some(prior) => seq![Effect::Supersede(prior)],
                None => seq![],
            }) + seq![Effect::SendHello(id)],
            old(self).wf() ==> final(self).wf(),
    {
        let mut todo: Vec<Effect> = Vec::new();
        todo.push(Effect::Announce(ConnState::Authenticated));
        if let Some(prior) = self.conn {
            todo.push(Effect::Supersede(prior));
        }
        self.conn = Some(id);
        todo.push(Effect::SendHello(id));
        assert(todo@ =~= seq![Effect::Announce(ConnState::Authenticated)] + (match old(self).conn {
            Some(prior) => seq![Effect::Supersede(prior)],
            None => seq![],
        }) + seq![Effect::SendHello(id)]);
        todo
    }

    /// The greeting went out, or did not. Only a greeted peer is active.
    pub fn greeted(&self, id: u64, sent: bool) -> (todo: Vec<Effect>)
        ensures
            todo@ == only_if(sent, Effect::Announce(ConnState::Active)) + seq![
                Effect::StartStats(id),
            ],
    {
        let mut todo: Vec<Effect> = Vec::new();
        push_if(&mut todo, sent, Effect::Announce(ConnState::Active));
        todo.push(Effect::StartStats(id));
        assert(todo@ =~= only_if(sent, Effect::Announce(ConnState::Active)) + seq![
            Effect::StartStats(id),
        ]);
        todo
    }

    /// The peer opened a stream.
    pub fn accepted(&mut self, kind: StreamKind) -> (todo: Effect)
        ensures
            *final(self) == (PeerRuntime {
                video_inbound: old(self).video_inbound || kind == StreamKind::Video,
                ..*old(self)
            }),
            todo == (if kind == StreamKind::Control {
                Effect::DropStream
            } else {
                Effect::Serve(kind)
            }),
            old(self).wf() ==> final(self).wf(),
    {
        match kind {
            StreamKind::Control => Effect::DropStream,
            StreamKind::Video => {
                self.video_inbound = true;
                Effect::Serve(kind)
            },
            _ => Effect::Serve(kind),
        }
    }

    /// What is left of a peer when connection `id` is gone. The virtual camera
    /// and the virtual sound device stay.
    pub open spec fn after_loss(self, id: u64) -> PeerRuntime {
        PeerRuntime {
            conn: if self.conn == Some(id) {
                None
            } else {
                self.conn
            },
            camera_task: false,
            camera_frames: false,
            audio_pump: false,
            audio_render: false,
            audio_tx: false,
            ..self
        }
    }

    /// What has to be done when connection `id` is gone. Nobody hears of the end
    /// of a connection that a newer one replaced.
    pub open spec fn loss_effects(self, id: u64) -> Seq<Effect> {
        only_if(self.camera_task, Effect::StopDecoder) + only_if(self.audio_pump, Effect::StopPump)
            + only_if(self.audio_render, Effect::StopRender) + seq![Effect::StopStats(id)]
            + only_if(self.conn == Some(id), Effect::Announce(ConnState::Disconnected))
    }

    fn lost(&mut self, id: u64) -> (todo: Vec<Effect>)
        ensures
            *final(self) == old(self).after_loss(id),
            todo@ == old(self).loss_effects(id),
    {
        let current = match self.conn {
            Some(c) => c == id,
            None => false,
        };
        let mut todo: Vec<Effect> = Vec::new();
        if current {
            self.conn = None;
        }
        push_if(&mut todo, self.camera_task, Effect::StopDecoder);
        push_if(&mut todo, self.audio_pump, Effect::StopPump);
        push_if(&mut todo, self.audio_render, Effect::StopRender);
        todo.push(Effect::StopStats(id));
        push_if(&mut todo, current, Effect::Announce(ConnState::Disconnected));
        self.camera_task = false;
        self.camera_frames = false;
        self.audio_pump = false;
        self.audio_render = false;
        self.audio_tx = false;
        assert(todo@ =~= old(self).loss_effects(id));
        todo
    }

    /// Accepting the next stream of connection `id` failed. An ordinary end
    /// takes down what hung on the connection; any other failure is passed on
    /// and changes nothing.
    pub fn accept_failed(&mut self, id: u64, why: AcceptError) -> (r: Option<Vec<Effect>>)
        ensures
            match why {
                AcceptError::Other => r is None && *final(self) == *old(self),
                _ => r is Some && r->0@ == old(self).loss_effects(id) && *final(self) == old(
                    self,
                ).after_loss(id),
            },
            old(self).wf() ==> final(self).wf(),
    {
        match why {
            AcceptError::Other => None,
            AcceptError::Closed | AcceptError::TimedOut => Some(self.lost(id)),
        }
    }

    // ---- the mirror window -------------------------------------------------------------

    /// The mirror window is wanted. Capture is asked for only where no video
    /// comes yet, and a window is opened only where none is open.
    pub fn show_screen(&self) -> (todo: Vec<Effect>)
        ensures
            todo@ == self.show_effects(),
    {
        let mut todo: Vec<Effect> = Vec::new();
        if let Some(c) = self.conn {
            todo.push(Effect::OpenInput(c));
            if !self.video_inbound {
                todo.push(Effect::Send(c, Ask::RequestCapture));
            }
        }
        push_if(&mut todo, !self.window, Effect::SpawnWindow);
        assert(todo@ =~= self.show_effects());
        todo
    }

    pub open spec fn show_effects(self) -> Seq<Effect> {
        (match self.conn {
            Some(c) => seq![Effect::OpenInput(c)] + only_if(
                !self.video_inbound,
                Effect::Send(c, Ask::RequestCapture),
            ),
            None => seq![],
        }) + only_if(!self.window, Effect::SpawnWindow)
    }

    /// The window opened, or did not.
    pub fn window_spawned(&mut self, ok: bool) -> (todo: Option<Effect>)
        ensures
            *final(self) == (if ok {
                PeerRuntime { window: true, video_tx: true, ..*old(self) }
            } else {
                *old(self)
            }),
            todo == (if ok {
                Some(Effect::ShowTile(Tile::Screen, true))
            } else {
                None
            }),
            old(self).wf() ==> final(self).wf(),
    {
        if ok {
            self.window = true;
            self.video_tx = true;
            Some(Effect::ShowTile(Tile::Screen, true))
        } else {
            None
        }
    }

    /// The window closed by itself; `hide_screen` has to follow.
    pub fn window_exited(&mut self)
        ensures
            *final(self) == (PeerRuntime { window: false, video_tx: false, ..*old(self) }),
            old(self).wf() ==> final(self).wf(),
    {
        self.window = false;
        self.video_tx = false;
    }

    pub open spec fn hide_effects(self) -> Seq<Effect> {
        only_if(self.window, Effect::ShutDownWindow) + (match self.conn {
            Some(c) => seq![Effect::Send(c, Ask::StopCapture)],
            None => seq![],
        }) + seq![Effect::ShowTile(Tile::Screen, false)]
    }

    /// The mirror window is not wanted any more.
    pub fn hide_screen(&mut self) -> (todo: Vec<Effect>)
        ensures
            *final(self) == (PeerRuntime { window: false, video_tx: false, ..*old(self) }),
            todo@ == old(self).hide_effects(),
            old(self).wf() ==> final(self).wf(),
    {
        let mut todo: Vec<Effect> = Vec::new();
        push_if(&mut todo, self.window, Effect::ShutDownWindow);
        if let Some(c) = self.conn {
            todo.push(Effect::Send(c, Ask::StopCapture));
        }
        todo.push(Effect::ShowTile(Tile::Screen, false));
        self.window = false;
        self.video_tx = false;
        assert(todo@ =~= old(self).hide_effects());
        todo
    }

    /// A piece of video came. Whether the window gets it.
    pub fn video_chunk(&self) -> (forward: bool)
        ensures
            forward == self.video_tx,
    {
        self.video_tx
    }

    /// The window did not take a piece of video any more.
    pub fn video_refused(&mut self)
        ensures
            *final(self) == (PeerRuntime { video_tx: false, ..*old(self) }),
            old(self).wf() ==> final(self).wf(),
    {
        self.video_tx = false;
    }

    /// The companion's video ended; `hide_screen` has to follow.
    pub fn video_ended(&mut self)
        ensures
            *final(self) == (PeerRuntime { video_inbound: false, ..*old(self) }),
            old(self).wf() ==> final(self).wf(),
    {
        self.video_inbound = false;
    }
}

/// A connection that a newer one replaced ends without touching the newer one,
/// and nobody is told of a disconnect.
pub proof fn redial_survives(p: PeerRuntime, stale: u64, fresh: u64)
    requires
        p.conn == Some(fresh),
        stale != fresh,
    ensures
        p.after_loss(stale).conn == Some(fresh),
        !p.loss_effects(stale).contains(Effect::Announce(ConnState::Disconnected)),
{
}

/// The end of a connection leaves the virtual camera and the virtual sound
/// device in place.
pub proof fn devices_survive_loss(p: PeerRuntime, id: u64)
    ensures
        p.after_loss(id).camera_sink == p.camera_sink,
        p.after_loss(id).camera_registered == p.camera_registered,
        p.after_loss(id).audio_sink == p.audio_sink,
{
}

// ---- what the changes come to -----------------------------------------------------------

pub(crate) proof fn in_one(e: Effect, x: Effect)
    ensures
        seq![e].contains(x) <==> x == e,
{
    assert(seq![e][0] == e);
}

pub(crate) proof fn in_only_if(b: bool, e: Effect, x: Effect)
    ensures
        only_if(b, e).contains(x) <==> b && x == e,
{
    if b {
        in_one(e, x);
    }
}

pub(crate) proof fn in_sum(a: Seq<Effect>, b: Seq<Effect>, x: Effect)
    ensures
        (a + b).contains(x) <==> a.contains(x) || b.contains(x),
{
    vstd::seq_lib::lemma_seq_concat_contains_all_elements(a, b, x);
}

/// Whoever wants to see the screen gets a picture: a peer that is there and sends no
/// video is asked to capture, and one that sends it is not asked again. The input of
/// the window goes to that peer, and a window is opened where none is. Nothing else is
/// done.
pub proof fn showing_brings_a_picture(p: PeerRuntime, e: Effect)
    ensures
        p.show_effects().contains(e) <==> match e {
            Effect::Send(c, Ask::RequestCapture) => p.conn == Some(c) && !p.video_inbound,
            Effect::OpenInput(c) => p.conn == Some(c),
            Effect::SpawnWindow => !p.window,
            _ => false,
        },
        p.show_effects().no_duplicates(),
{
    let first = match p.conn {
        Some(c) => seq![Effect::OpenInput(c)] + only_if(
            !p.video_inbound,
            Effect::Send(c, Ask::RequestCapture),
        ),
        None => seq![],
    };
    let last = only_if(!p.window, Effect::SpawnWindow);
    assert(p.show_effects() =~= first + last);
    in_sum(first, last, e);
    in_only_if(!p.window, Effect::SpawnWindow, e);
    if let Some(c) = p.conn {
        let ask = Effect::Send(c, Ask::RequestCapture);
        in_sum(seq![Effect::OpenInput(c)], only_if(!p.video_inbound, ask), e);
        in_one(Effect::OpenInput(c), e);
        in_only_if(!p.video_inbound, ask, e);
    }
}

/// Whoever does not want to see the screen any more ends all of it: a window that is
/// open is shut, a peer that is there is told to stop capturing, and the switch goes
/// off. Nothing else is done.
pub proof fn hiding_ends_the_picture(p: PeerRuntime, e: Effect)
    ensures
        p.hide_effects().contains(e) <==> match e {
            Effect::Send(c, Ask::StopCapture) => p.conn == Some(c),
            Effect::ShutDownWindow => p.window,
            Effect::ShowTile(Tile::Screen, on) => !on,
            _ => false,
        },
{
    let shut = only_if(p.window, Effect::ShutDownWindow);
    let ask = match p.conn {
        Some(c) => seq![Effect::Send(c, Ask::StopCapture)],
        None => seq![],
    };
    let off = Effect::ShowTile(Tile::Screen, false);
    assert(p.hide_effects() =~= shut + ask + seq![off]);
    in_sum(shut + ask, seq![off], e);
    in_sum(shut, ask, e);
    in_one(off, e);
    in_only_if(p.window, Effect::ShutDownWindow, e);
    if let Some(c) = p.conn {
        in_one(Effect::Send(c, Ask::StopCapture), e);
    }
}

/// When a connection is gone, every task that hung on it and ran is stopped, and no
/// other. Only the end of the connection in use is announced.
pub proof fn loss_stops_what_ran(p: PeerRuntime, id: u64, e: Effect)
    ensures
        p.loss_effects(id).contains(e) <==> match e {
            Effect::StopDecoder => p.camera_task,
            Effect::StopPump => p.audio_pump,
            Effect::StopRender => p.audio_render,
            Effect::StopStats(c) => c == id,
            Effect::Announce(s) => s == ConnState::Disconnected && p.conn == Some(id),
            _ => false,
        },
{
    let a = only_if(p.camera_task, Effect::StopDecoder);
    let b = only_if(p.audio_pump, Effect::StopPump);
    let c = only_if(p.audio_render, Effect::StopRender);
    let d = seq![Effect::StopStats(id)];
    let f = only_if(p.conn == Some(id), Effect::Announce(ConnState::Disconnected));
    assert(p.loss_effects(id) =~= a + b + c + d + f);
    in_sum(a + b + c + d, f, e);
    in_sum(a + b + c, d, e);
    in_sum(a + b, c, e);
    in_sum(a, b, e);
    in_only_if(p.camera_task, Effect::StopDecoder, e);
    in_only_if(p.audio_pump, Effect::StopPump, e);
    in_only_if(p.audio_render, Effect::StopRender, e);
    in_one(Effect::StopStats(id), e);
    in_only_if(p.conn == Some(id), Effect::Announce(ConnState::Disconnected), e);
}

/// After a connection is gone it is not in use, nothing runs on it, and no frame or
/// sound of it is taken. What the user set up stays as it was: the window, the
/// counting, the switch of the sound and the devices.
pub proof fn loss_leaves_nothing_running(p: PeerRuntime, id: u64)
    ensures
        ({
            let q = p.after_loss(id);
            &&& q.conn != Some(id)
            &&& q.conn is Some ==> q.conn == p.conn
            &&& !q.camera_task && !q.camera_frames
            &&& !q.audio_pump && !q.audio_render && !q.audio_tx
            &&& q.name == p.name && q.window == p.window && q.video_tx == p.video_tx
            &&& q.video_inbound == p.video_inbound
            &&& q.audio_stats == p.audio_stats && q.audio_tile == p.audio_tile
            &&& q.loss_effects(id) == seq![Effect::StopStats(id)]
        }),
{
    assert(p.after_loss(id).loss_effects(id) =~= seq![Effect::StopStats(id)]);
}

/// Of a peer that is new nothing runs, and what it is called is kept.
pub proof fn new_peer_is_idle(name: String)
    ensures
        ({
            let p = PeerRuntime::idle(name);
            &&& p.name == name && p.conn is None && p.audio_tile is None
            &&& !p.window && !p.video_tx && !p.video_inbound
            &&& !p.camera_sink && !p.camera_registered && !p.camera_task && !p.camera_frames
            &&& !p.audio_sink && !p.audio_stats && !p.audio_pump && !p.audio_tx && !p.audio_render
        }),
{
}

/// A connection that comes up is the one in use, is announced as trusted, and is
/// greeted; the one that it takes the place of, and no other, is closed. Nothing that
/// runs is touched.
pub proof fn connecting_takes_over()
    ensures
        forall|m: &mut PeerRuntime, id: u64, did: Vec<Effect>|
            #[trigger] call_ensures(PeerRuntime::connected, (m, id), did) ==> {
                &&& final(m).conn == Some(id)
                &&& *final(m) == (PeerRuntime { conn: final(m).conn, ..*m })
                &&& forall|e: Effect| #[trigger]
                    did@.contains(e) <==> match e {
                        Effect::Announce(s) => s == ConnState::Authenticated,
                        Effect::Supersede(c) => m.conn == Some(c),
                        Effect::SendHello(c) => c == id,
                        _ => false,
                    }
            },
{
    assert forall|m: &mut PeerRuntime, id: u64, did: Vec<Effect>| #[trigger]
        call_ensures(PeerRuntime::connected, (m, id), did) implies {
        &&& final(m).conn == Some(id)
        &&& *final(m) == (PeerRuntime { conn: final(m).conn, ..*m })
        &&& forall|e: Effect| #[trigger]
            did@.contains(e) <==> match e {
                Effect::Announce(s) => s == ConnState::Authenticated,
                Effect::Supersede(c) => m.conn == Some(c),
                Effect::SendHello(c) => c == id,
                _ => false,
            }
    } by {
        let first = seq![Effect::Announce(ConnState::Authenticated)];
        let prior = match m.conn {
            Some(c) => seq![Effect::Supersede(c)],
            None => seq![],
        };
        assert forall|e: Effect| #[trigger]
            did@.contains(e) <==> match e {
                Effect::Announce(s) => s == ConnState::Authenticated,
                Effect::Supersede(c) => m.conn == Some(c),
                Effect::SendHello(c) => c == id,
                _ => false,
            } by {
            in_sum(first + prior, seq![Effect::SendHello(id)], e);
            in_sum(first, prior, e);
            in_one(Effect::Announce(ConnState::Authenticated), e);
            in_one(Effect::SendHello(id), e);
            if let Some(c) = m.conn {
                in_one(Effect::Supersede(c), e);
            }
        }
    }
}

/// A peer counts as active exactly when the greeting reached it; its connection is
/// watched either way.
pub proof fn greeted_peer_is_active(p: PeerRuntime, id: u64, sent: bool, did: Vec<Effect>, e: Effect)
    requires
        call_ensures(PeerRuntime::greeted, (&p, id, sent), did),
    ensures
        did@.contains(e) <==> match e {
            Effect::Announce(s) => s == ConnState::Active && sent,
            Effect::StartStats(c) => c == id,
            _ => false,
        },
{
    in_sum(
        only_if(sent, Effect::Announce(ConnState::Active)),
        seq![Effect::StartStats(id)],
        e,
    );
    in_only_if(sent, Effect::Announce(ConnState::Active), e);
    in_one(Effect::StartStats(id), e);
}

/// A stream that a peer opens is served by the part for its kind, and only the one for
/// control, which peers do not open, is closed. Video that comes in is remembered.
pub proof fn streams_are_served_by_kind()
    ensures
        forall|m: &mut PeerRuntime, kind: StreamKind, did: Effect|
            #[trigger] call_ensures(PeerRuntime::accepted, (m, kind), did) ==> {
                &&& did == Effect::DropStream <==> kind == StreamKind::Control
                &&& did != Effect::DropStream ==> did == Effect::Serve(kind)
                &&& kind == StreamKind::Video ==> final(m).video_inbound
                &&& kind != StreamKind::Video ==> final(m).video_inbound == m.video_inbound
                &&& *final(m) == (PeerRuntime { video_inbound: final(m).video_inbound, ..*m })
            },
{
}

/// Only the ordinary end of a connection takes anything down.
pub proof fn failures_are_passed_on()
    ensures
        forall|m: &mut PeerRuntime, id: u64, why: AcceptError, r: Option<Vec<Effect>>|
            #[trigger] call_ensures(PeerRuntime::accept_failed, (m, id, why), r) ==> {
                &&& r is None <==> why == AcceptError::Other
                &&& r is None ==> *final(m) == *m
                &&& r matches Some(did) ==> did@ == m.loss_effects(id) && *final(m)
                    == m.after_loss(id)
            },
{
}

/// The video of a peer reaches its window from when the window opened until it is
/// closed, by whomever, or takes no more; the switch shows that it is open.
pub proof fn window_takes_video_while_open()
    ensures
        forall|m: &mut PeerRuntime, ok: bool, did: Option<Effect>|
            #[trigger] call_ensures(PeerRuntime::window_spawned, (m, ok), did) ==> {
                &&& ok ==> final(m).window && final(m).video_tx
                &&& ok ==> did == Some(Effect::ShowTile(Tile::Screen, true))
                &&& !ok ==> did is None && *final(m) == *m
                &&& *final(m) == (PeerRuntime {
                    window: final(m).window,
                    video_tx: final(m).video_tx,
                    ..*m
                })
            },
        forall|m: &mut PeerRuntime|
            #[trigger] call_ensures(PeerRuntime::window_exited, (m,), ()) ==> {
                &&& !final(m).window && !final(m).video_tx
                &&& *final(m) == (PeerRuntime { window: false, video_tx: false, ..*m })
            },
        forall|m: &mut PeerRuntime, did: Vec<Effect>|
            #[trigger] call_ensures(PeerRuntime::hide_screen, (m,), did) ==> {
                &&& !final(m).window && !final(m).video_tx
                &&& did@ == m.hide_effects()
                &&& *final(m) == (PeerRuntime { window: false, video_tx: false, ..*m })
            },
        forall|m: &mut PeerRuntime|
            #[trigger] call_ensures(PeerRuntime::video_refused, (m,), ()) ==> {
                &&& !final(m).video_tx && final(m).window == m.window
                &&& *final(m) == (PeerRuntime { video_tx: false, ..*m })
            },
        forall|m: &mut PeerRuntime|
            #[trigger] call_ensures(PeerRuntime::video_ended, (m,), ()) ==> {
                &&& !final(m).video_inbound && final(m).conn == m.conn
                &&& *final(m) == (PeerRuntime { video_inbound: false, ..*m })
            },
        forall|p: PeerRuntime, forward: bool|
            #[trigger] call_ensures(PeerRuntime::video_chunk, (&p,), forward) ==> forward
                == p.video_tx,
        forall|p: PeerRuntime, did: Vec<Effect>|
            #[trigger] call_ensures(PeerRuntime::show_screen, (&p,), did) ==> did@
                == p.show_effects(),
{
}

} // verus!
